//! Completion items for the arguments of a full-text search query.
use crate::completion::{ArgSpan, CompletionItem, CompletionItemKind, Doc, DocView, ItemView, current_word, find_current_word, items_view, spec_substring, spec_to_lowercase, substring, to_lowercase};
use crate::text::{join, join_strings, seq_contains, strs_view, to_chars, contains_chars};
use crate::resp::RespValue;
use crate::text::str_eq;
use vstd::prelude::*;

verus! {

/// An option suggestion for a search query, with its documentation.
pub open spec fn ft_item(
    label: Seq<char>,
    detail: Option<Seq<char>>,
    syntax: Seq<char>,
    summary: Seq<char>,
    attributes: Seq<(Seq<char>, Seq<char>)>,
    start: int,
    end: int,
) -> ItemView {
    ItemView {
        kind: CompletionItemKind::Flag,
        label,
        detail,
        description: Some(DocView { syntax, summary, attributes }),
        parameters: seq![],
        range: (start, end),
        insert_text: label,
    }
}

/// The arguments of `FT.SEARCH`, in alphabetical order, each replacing the
/// given range of the input.
pub open spec fn ft_search_argument_list(start: int, end: int) -> Seq<ItemView> {
    seq![
        ft_item("DIALECT"@, Some("version"@), "DIALECT {dialect_version}"@, "selects the dialect version under which to execute the query. If not specified, the query will execute under the default dialect version set during module initial loading or via FT.CONFIG SET command."@, seq![("default"@, "1"@), ("option"@, "1|2|3|4"@), ("see"@, "FT.CONFIG SET"@)], start, end),
        ft_item("EXPANDER"@, Some("expander"@), "EXPANDER {expander}"@, "uses a custom query expander instead of the stemmer."@, seq![], start, end),
        ft_item("EXPLAINSCORE"@, None, "EXPLAINSCORE"@, "returns a textual description of how the scores were calculated. Using this option requires WITHSCORES."@, seq![("see"@, "WITHSCORES"@)], start, end),
        ft_item("FRAGS"@, Some("num"@), "FRAGS {num}"@, "The number of fragments to be returned. If not specified"@, seq![("default"@, "3"@)], start, end),
        ft_item("HIGHLIGHT"@, Some("[FIELDS {num} {field}] [TAGS {openTag} {closeTag}]"@), "HIGHLIGHT [FIELDS {num} {field}] [TAGS {openTag} {closeTag}]"@, "Highlighting will surround the found term (and its variants) with a user-defined pair of tags. This may be used to display the matched text in a different typeface using a markup language, or to otherwise make the text appear differently."@, seq![("see"@, "FIELDS"@), ("see"@, "TAGS"@), ("see"@, "RETURN"@)], start, end),
        ft_item("INFIELDS"@, Some("{num} {attribute}"@), "INFIELDS {num} {attribute}"@, "filters the results to those appearing only in specific attributes of the document, like title or URL. You must include num, which is the number of attributes you're filtering by. For example, if you request title and URL, then num is 2."@, seq![], start, end),
        ft_item("INKEYS"@, Some("{num} {attribute}"@), "INKEYS {num} {attribute}"@, "limits the result to a given set of keys specified in the list. The first argument must be the length of the list and greater than zero. Non-existent keys are ignored, unless all the keys are non-existent."@, seq![], start, end),
        ft_item("INORDER"@, None, "INORDER"@, "requires the terms in the document to have the same order as the terms in the query, regardless of the offsets between them. Typically used in conjunction with SLOP. Default is false."@, seq![], start, end),
        ft_item("LANGUAGE"@, Some("{language}"@), "LANGUAGE {language}"@, "use a stemmer for the supplied language during search for query expansion. If querying documents in Chinese, set to chinese to properly tokenize the query terms. Defaults to English. If an unsupported language is sent, the command returns an error. See FT.CREATE for the list of languages. If LANGUAGE was specified as part of index creation, it doesn't need to specified with FT.SEARCH."@, seq![], start, end),
        ft_item("LEN"@, Some("{fragLen}"@), "LEN {fragLen}"@, "The number of context words each fragment should contain. Context words surround the found term. A higher value will return a larger block of text. If not specified, the default value is 20."@, seq![("default"@, "20"@)], start, end),
        ft_item("LIMIT"@, Some("LIMIT {first} {num}"@), "LIMIT {first} {num}"@, r#"limits the results to the offset and number of results given. Note that the offset is zero-indexed. The default is 0 10, which returns 10 items starting from the first result. You can use LIMIT 0 0 to count the number of documents in the result set without actually returning them.
LIMIT behavior:
If you use the LIMIT option without sorting, the results returned are non-deterministic, which means that subsequent queries may return duplicated or missing values. Add SORTBY with a unique field, or use FT.AGGREGATE with the WITHCURSOR option to ensure deterministic result set paging.
"#@, seq![("default"@, "0 10"@)], start, end),
        ft_item("NOCONTENT"@, None, "NOCONTENT"@, "returns the document ids and not the content. This is useful if RediSearch is only an index on an external document collection."@, seq![], start, end),
        ft_item("NOSTOPWORDS"@, None, "NOSTOPWORDS"@, "ignores any defined stop words in full text searches."@, seq![], start, end),
        ft_item("PARAMS"@, Some("{nargs} {name} {value}"@), "PARAMS {nargs} {name} {value}"@, "defines one or more value parameters. Each parameter has a name and a value. You can reference parameters in the query by a $, followed by the parameter name."@, seq![("require"@, "RedisSearch v2.4+"@)], start, end),
        ft_item("PAYLOAD"@, Some("{payload}"@), "PAYLOAD {payload}"@, "adds an arbitrary, binary safe payload that is exposed to custom scoring functions."@, seq![], start, end),
        ft_item("RETURN"@, Some("{num} {identifier} AS {property}"@), "RETURN {num} {identifier} AS {property}"@, "limits the attributes returned from the document. num is the number of attributes following the keyword. If num is 0, it acts like NOCONTENT. identifier is either an attribute name (for hashes and JSON) or a JSON Path expression (for JSON). property is an optional name used in the result. If not provided, the identifier is used in the result."@, seq![], start, end),
        ft_item("SCORER"@, Some("{scorer}"@), "SCORER {scorer}"@, "uses a built-in or a user-provided scoring function."@, seq![], start, end),
        ft_item("SEPARATOR"@, Some("{sepStr}"@), "SEPARATOR {sepStr}"@, "The string used to divide individual summary snippets. The default is ... which is common among search engines, but you may override this with any other string if you desire to programmatically divide the snippets later on. You may also use a newline sequence, as newlines are stripped from the result body during processing."@, seq![("default"@, "..."@)], start, end),
        ft_item("SLOP"@, Some("{slop}"@), "SLOP {slop}"@, "is the number of intermediate terms allowed to appear between the terms of the query. Suppose you're searching for a phrase hello world. If some terms appear in-between hello and world, a SLOP greater than 0 allows for these text attributes to match. By default, there is no SLOP constraint."@, seq![], start, end),
        ft_item("SORTBY"@, Some("{attribute} [ASC|DESC] [WITHCOUNT]"@), "SORTBY {attribute} [ASC|DESC] [WITHCOUNT]"@, "orders the results by the value of this attribute. This applies to both text and numeric attributes. Attributes needed for SORTBY should be declared as SORTABLE in the index, in order to be available with very low latency. Note that this adds memory overhead."@, seq![("note"@, "adds memory overhead"@)], start, end),
        ft_item("SUMMARIZE"@, Some("[FIELDS {num} {field}] [FRAGS {numFrags}] [LEN {fragLen}] [SEPARATOR {sepStr}]"@), "SUMMARIZE [FIELDS {num} {field}] [FRAGS {numFrags}] [LEN {fragLen}] [SEPARATOR {sepStr}]"@, "returns only the sections of the attribute that contain the matched text. Summarization will fragment the text into smaller sized snippets, each of which containing the found term(s) and some additional surrounding context."@, seq![("see"@, "FIELDS"@), ("see"@, "FRAGS"@), ("see"@, "LEN"@), ("see"@, "SEPARATOR"@)], start, end),
        ft_item("TIMEOUT"@, Some("{milliseconds}"@), "TIMEOUT {milliseconds}"@, "overrides the timeout parameter of the module."@, seq![], start, end),
        ft_item("VERBATIM"@, None, "VERBATIM"@, "does not try to use stemming for query expansion but searches the query terms verbatim."@, seq![], start, end),
        ft_item("WITHPAYLOADS"@, None, "WITHPAYLOADS"@, "retrieves optional document payloads. See FT.CREATE. The payloads follow the document id and, if WITHSCORES is set, the scores."@, seq![("see"@, "FT.CREATE"@)], start, end),
        ft_item("WITHSCORES"@, None, "WITHSCORES"@, "also returns the relative internal score of each document. This can be used to merge results from multiple instances."@, seq![], start, end),
        ft_item("WITHSORTKEYS"@, None, "WITHSORTKEYS"@, "returns the value of the sorting key, right after the id and score and/or payload, if requested. This is usually not needed, and exists for distributed search coordination purposes. This option is relevant only if used in conjunction with SORTBY."@, seq![], start, end),
    ]
}

/// The completion items for the arguments of `FT.SEARCH`, each replacing the
/// input from `start` to `end`.
pub fn get_ft_search_arguments(start: isize, end: isize) -> (r: Vec<CompletionItem>)
    ensures
        items_view(r@) == ft_search_argument_list(start as int, end as int),
{
    let ghost l = ft_search_argument_list(start as int, end as int);
    let mut v: Vec<CompletionItem> = Vec::new();
    v.push(
        CompletionItem::option("DIALECT").range(start, end)
            .detail("version")
            .description(
                Doc::new()
                    .syntax("DIALECT {dialect_version}")
                    .summary("selects the dialect version under which to execute the query. If not specified, the query will execute under the default dialect version set during module initial loading or via FT.CONFIG SET command.")
                    .attribute("default", "1")
                    .attribute("option", "1|2|3|4")
                    .attribute("see", "FT.CONFIG SET")
            ),
    );
    proof {
        assert(v@[0]@.description->0.attributes =~= l[0].description->0.attributes);
        assert(v@[0]@ == l[0]);
    }
    v.push(
        CompletionItem::option("EXPANDER").range(start, end)
            .detail("expander")
            .description(
                Doc::new()
                    .syntax("EXPANDER {expander}")
                    .summary("uses a custom query expander instead of the stemmer.")
            ),
    );
    proof {
        assert(v@[1]@.description->0.attributes =~= l[1].description->0.attributes);
        assert(v@[1]@ == l[1]);
    }
    v.push(
        CompletionItem::option("EXPLAINSCORE").range(start, end)
            .description(
                Doc::new()
                    .syntax("EXPLAINSCORE")
                    .summary("returns a textual description of how the scores were calculated. Using this option requires WITHSCORES.")
                    .attribute("see", "WITHSCORES")
            ),
    );
    proof {
        assert(v@[2]@.description->0.attributes =~= l[2].description->0.attributes);
        assert(v@[2]@ == l[2]);
    }
    v.push(
        CompletionItem::option("FRAGS").range(start, end)
            .detail("num")
            .description(
                Doc::new()
                    .syntax("FRAGS {num}")
                    .summary("The number of fragments to be returned. If not specified")
                    .attribute("default", "3")
            ),
    );
    proof {
        assert(v@[3]@.description->0.attributes =~= l[3].description->0.attributes);
        assert(v@[3]@ == l[3]);
    }
    v.push(
        CompletionItem::option("HIGHLIGHT").range(start, end)
            .detail("[FIELDS {num} {field}] [TAGS {openTag} {closeTag}]")
            .description(
                Doc::new()
                    .syntax("HIGHLIGHT [FIELDS {num} {field}] [TAGS {openTag} {closeTag}]")
                    .summary("Highlighting will surround the found term (and its variants) with a user-defined pair of tags. This may be used to display the matched text in a different typeface using a markup language, or to otherwise make the text appear differently.")
                    .attribute("see", "FIELDS")
                    .attribute("see", "TAGS")
                    .attribute("see", "RETURN")
            ),
    );
    proof {
        assert(v@[4]@.description->0.attributes =~= l[4].description->0.attributes);
        assert(v@[4]@ == l[4]);
    }
    v.push(
        CompletionItem::option("INFIELDS").range(start, end)
            .detail("{num} {attribute}")
            .description(
                Doc::new()
                    .syntax("INFIELDS {num} {attribute}")
                    .summary("filters the results to those appearing only in specific attributes of the document, like title or URL. You must include num, which is the number of attributes you're filtering by. For example, if you request title and URL, then num is 2.")
            ),
    );
    proof {
        assert(v@[5]@.description->0.attributes =~= l[5].description->0.attributes);
        assert(v@[5]@ == l[5]);
    }
    v.push(
        CompletionItem::option("INKEYS").range(start, end)
            .detail("{num} {attribute}")
            .description(
                Doc::new()
                    .syntax("INKEYS {num} {attribute}")
                    .summary("limits the result to a given set of keys specified in the list. The first argument must be the length of the list and greater than zero. Non-existent keys are ignored, unless all the keys are non-existent.")
            ),
    );
    proof {
        assert(v@[6]@.description->0.attributes =~= l[6].description->0.attributes);
        assert(v@[6]@ == l[6]);
    }
    v.push(
        CompletionItem::option("INORDER").range(start, end)
            .description(
                Doc::new()
                    .syntax("INORDER")
                    .summary("requires the terms in the document to have the same order as the terms in the query, regardless of the offsets between them. Typically used in conjunction with SLOP. Default is false.")
            ),
    );
    proof {
        assert(v@[7]@.description->0.attributes =~= l[7].description->0.attributes);
        assert(v@[7]@ == l[7]);
    }
    v.push(
        CompletionItem::option("LANGUAGE").range(start, end)
            .detail("{language}")
            .description(
                Doc::new()
                    .syntax("LANGUAGE {language}")
                    .summary("use a stemmer for the supplied language during search for query expansion. If querying documents in Chinese, set to chinese to properly tokenize the query terms. Defaults to English. If an unsupported language is sent, the command returns an error. See FT.CREATE for the list of languages. If LANGUAGE was specified as part of index creation, it doesn't need to specified with FT.SEARCH.")
            ),
    );
    proof {
        assert(v@[8]@.description->0.attributes =~= l[8].description->0.attributes);
        assert(v@[8]@ == l[8]);
    }
    v.push(
        CompletionItem::option("LEN").range(start, end)
            .detail("{fragLen}")
            .description(
                Doc::new()
                    .syntax("LEN {fragLen}")
                    .summary("The number of context words each fragment should contain. Context words surround the found term. A higher value will return a larger block of text. If not specified, the default value is 20.")
                    .attribute("default", "20")
            ),
    );
    proof {
        assert(v@[9]@.description->0.attributes =~= l[9].description->0.attributes);
        assert(v@[9]@ == l[9]);
    }
    v.push(
        CompletionItem::option("LIMIT").range(start, end)
            .detail("LIMIT {first} {num}")
            .description(
                Doc::new()
                    .syntax("LIMIT {first} {num}")
                    .summary(r#"limits the results to the offset and number of results given. Note that the offset is zero-indexed. The default is 0 10, which returns 10 items starting from the first result. You can use LIMIT 0 0 to count the number of documents in the result set without actually returning them.
LIMIT behavior:
If you use the LIMIT option without sorting, the results returned are non-deterministic, which means that subsequent queries may return duplicated or missing values. Add SORTBY with a unique field, or use FT.AGGREGATE with the WITHCURSOR option to ensure deterministic result set paging.
"#)
                    .attribute("default", "0 10")
            ),
    );
    proof {
        assert(v@[10]@.description->0.attributes =~= l[10].description->0.attributes);
        assert(v@[10]@ == l[10]);
    }
    v.push(
        CompletionItem::option("NOCONTENT").range(start, end)
            .description(
                Doc::new()
                    .syntax("NOCONTENT")
                    .summary("returns the document ids and not the content. This is useful if RediSearch is only an index on an external document collection.")
            ),
    );
    proof {
        assert(v@[11]@.description->0.attributes =~= l[11].description->0.attributes);
        assert(v@[11]@ == l[11]);
    }
    v.push(
        CompletionItem::option("NOSTOPWORDS").range(start, end)
            .description(
                Doc::new()
                    .syntax("NOSTOPWORDS")
                    .summary("ignores any defined stop words in full text searches.")
            ),
    );
    proof {
        assert(v@[12]@.description->0.attributes =~= l[12].description->0.attributes);
        assert(v@[12]@ == l[12]);
    }
    v.push(
        CompletionItem::option("PARAMS").range(start, end)
            .detail("{nargs} {name} {value}")
            .description(
                Doc::new()
                    .syntax("PARAMS {nargs} {name} {value}")
                    .summary("defines one or more value parameters. Each parameter has a name and a value. You can reference parameters in the query by a $, followed by the parameter name.")
                    .attribute("require", "RedisSearch v2.4+")
            ),
    );
    proof {
        assert(v@[13]@.description->0.attributes =~= l[13].description->0.attributes);
        assert(v@[13]@ == l[13]);
    }
    v.push(
        CompletionItem::option("PAYLOAD").range(start, end)
            .detail("{payload}")
            .description(
                Doc::new()
                    .syntax("PAYLOAD {payload}")
                    .summary("adds an arbitrary, binary safe payload that is exposed to custom scoring functions.")
            ),
    );
    proof {
        assert(v@[14]@.description->0.attributes =~= l[14].description->0.attributes);
        assert(v@[14]@ == l[14]);
    }
    v.push(
        CompletionItem::option("RETURN").range(start, end)
            .detail("{num} {identifier} AS {property}")
            .description(
                Doc::new()
                    .syntax("RETURN {num} {identifier} AS {property}")
                    .summary("limits the attributes returned from the document. num is the number of attributes following the keyword. If num is 0, it acts like NOCONTENT. identifier is either an attribute name (for hashes and JSON) or a JSON Path expression (for JSON). property is an optional name used in the result. If not provided, the identifier is used in the result.")
            ),
    );
    proof {
        assert(v@[15]@.description->0.attributes =~= l[15].description->0.attributes);
        assert(v@[15]@ == l[15]);
    }
    v.push(
        CompletionItem::option("SCORER").range(start, end)
            .detail("{scorer}")
            .description(
                Doc::new()
                    .syntax("SCORER {scorer}")
                    .summary("uses a built-in or a user-provided scoring function.")
            ),
    );
    proof {
        assert(v@[16]@.description->0.attributes =~= l[16].description->0.attributes);
        assert(v@[16]@ == l[16]);
    }
    v.push(
        CompletionItem::option("SEPARATOR").range(start, end)
            .detail("{sepStr}")
            .description(
                Doc::new()
                    .syntax("SEPARATOR {sepStr}")
                    .summary("The string used to divide individual summary snippets. The default is ... which is common among search engines, but you may override this with any other string if you desire to programmatically divide the snippets later on. You may also use a newline sequence, as newlines are stripped from the result body during processing.")
                    .attribute("default", "...")
            ),
    );
    proof {
        assert(v@[17]@.description->0.attributes =~= l[17].description->0.attributes);
        assert(v@[17]@ == l[17]);
    }
    v.push(
        CompletionItem::option("SLOP").range(start, end)
            .detail("{slop}")
            .description(
                Doc::new()
                    .syntax("SLOP {slop}")
                    .summary("is the number of intermediate terms allowed to appear between the terms of the query. Suppose you're searching for a phrase hello world. If some terms appear in-between hello and world, a SLOP greater than 0 allows for these text attributes to match. By default, there is no SLOP constraint.")
            ),
    );
    proof {
        assert(v@[18]@.description->0.attributes =~= l[18].description->0.attributes);
        assert(v@[18]@ == l[18]);
    }
    v.push(
        CompletionItem::option("SORTBY").range(start, end)
            .detail("{attribute} [ASC|DESC] [WITHCOUNT]")
            .description(
                Doc::new()
                    .syntax("SORTBY {attribute} [ASC|DESC] [WITHCOUNT]")
                    .summary("orders the results by the value of this attribute. This applies to both text and numeric attributes. Attributes needed for SORTBY should be declared as SORTABLE in the index, in order to be available with very low latency. Note that this adds memory overhead.")
                    .attribute("note", "adds memory overhead")
            ),
    );
    proof {
        assert(v@[19]@.description->0.attributes =~= l[19].description->0.attributes);
        assert(v@[19]@ == l[19]);
    }
    v.push(
        CompletionItem::option("SUMMARIZE").range(start, end)
            .detail("[FIELDS {num} {field}] [FRAGS {numFrags}] [LEN {fragLen}] [SEPARATOR {sepStr}]")
            .description(
                Doc::new()
                    .syntax("SUMMARIZE [FIELDS {num} {field}] [FRAGS {numFrags}] [LEN {fragLen}] [SEPARATOR {sepStr}]")
                    .summary("returns only the sections of the attribute that contain the matched text. Summarization will fragment the text into smaller sized snippets, each of which containing the found term(s) and some additional surrounding context.")
                    .attribute("see", "FIELDS")
                    .attribute("see", "FRAGS")
                    .attribute("see", "LEN")
                    .attribute("see", "SEPARATOR")
            ),
    );
    proof {
        assert(v@[20]@.description->0.attributes =~= l[20].description->0.attributes);
        assert(v@[20]@ == l[20]);
    }
    v.push(
        CompletionItem::option("TIMEOUT").range(start, end)
            .detail("{milliseconds}")
            .description(
                Doc::new()
                    .syntax("TIMEOUT {milliseconds}")
                    .summary("overrides the timeout parameter of the module.")
            ),
    );
    proof {
        assert(v@[21]@.description->0.attributes =~= l[21].description->0.attributes);
        assert(v@[21]@ == l[21]);
    }
    v.push(
        CompletionItem::option("VERBATIM").range(start, end)
            .description(
                Doc::new()
                    .syntax("VERBATIM")
                    .summary("does not try to use stemming for query expansion but searches the query terms verbatim.")
            ),
    );
    proof {
        assert(v@[22]@.description->0.attributes =~= l[22].description->0.attributes);
        assert(v@[22]@ == l[22]);
    }
    v.push(
        CompletionItem::option("WITHPAYLOADS").range(start, end)
            .description(
                Doc::new()
                    .syntax("WITHPAYLOADS")
                    .summary("retrieves optional document payloads. See FT.CREATE. The payloads follow the document id and, if WITHSCORES is set, the scores.")
                    .attribute("see", "FT.CREATE")
            ),
    );
    proof {
        assert(v@[23]@.description->0.attributes =~= l[23].description->0.attributes);
        assert(v@[23]@ == l[23]);
    }
    v.push(
        CompletionItem::option("WITHSCORES").range(start, end)
            .description(
                Doc::new()
                    .syntax("WITHSCORES")
                    .summary("also returns the relative internal score of each document. This can be used to merge results from multiple instances.")
            ),
    );
    proof {
        assert(v@[24]@.description->0.attributes =~= l[24].description->0.attributes);
        assert(v@[24]@ == l[24]);
    }
    v.push(
        CompletionItem::option("WITHSORTKEYS").range(start, end)
            .description(
                Doc::new()
                    .syntax("WITHSORTKEYS")
                    .summary("returns the value of the sorting key, right after the id and score and/or payload, if requested. This is usually not needed, and exists for distributed search coordination purposes. This option is relevant only if used in conjunction with SORTBY.")
            ),
    );
    proof {
        assert(v@[25]@.description->0.attributes =~= l[25].description->0.attributes);
        assert(v@[25]@ == l[25]);
    }
    proof {
        assert(v@.len() == l.len());
        assert(items_view(v@) =~= l);
    }
    v
}


// ---------------------------------------------------------------------------
// Index information
// ---------------------------------------------------------------------------
/// An attribute of a search index.
#[derive(Debug)]
pub struct AttributeInfo {
    pub identifier: String,
    pub attribute: String,
    pub kind: String,
}

/// What `FT.INFO` tells of a search index.  The index's memory size is a
/// double; it is kept as its bits.
#[derive(Debug)]
pub struct IndexInfo {
    pub name: String,
    pub key_type: String,
    pub prefixes: Vec<String>,
    pub attributes: Vec<AttributeInfo>,
    pub num_docs: i64,
    pub max_doc_id: i64,
    pub total_index_memory_sz_mb_bits: u64,
}

/// An attribute as the contracts see it: identifier, attribute name, type.
pub type AttrView = (Seq<char>, Seq<char>, Seq<char>);

/// Index information as the contracts see it.
pub struct IndexInfoView {
    pub name: Seq<char>,
    pub key_type: Seq<char>,
    pub prefixes: Seq<Seq<char>>,
    pub attributes: Seq<AttrView>,
    pub num_docs: i64,
    pub max_doc_id: i64,
    pub mem_bits: u64,
}

impl View for IndexInfo {
    type V = IndexInfoView;

    open spec fn view(&self) -> IndexInfoView {
        IndexInfoView {
            name: self.name@,
            key_type: self.key_type@,
            prefixes: self.prefixes@.map_values(|p: String| p@),
            attributes: self.attributes@.map_values(
                |a: AttributeInfo| (a.identifier@, a.attribute@, a.kind@),
            ),
            num_docs: self.num_docs,
            max_doc_id: self.max_doc_id,
            mem_bits: self.total_index_memory_sz_mb_bits,
        }
    }
}

/// Information of an index that `FT.INFO` said nothing of.
pub open spec fn empty_index_info() -> IndexInfoView {
    IndexInfoView {
        name: seq![],
        key_type: seq![],
        prefixes: seq![],
        attributes: seq![],
        num_docs: 0,
        max_doc_id: 0,
        mem_bits: 0,
    }
}

/// The simple strings among the values from the `k`-th on.
pub open spec fn simple_strings(vs: Seq<RespValue>, k: int) -> Seq<Seq<char>>
    decreases vs.len() - k,
{
    if 0 <= k < vs.len() {
        match vs[k] {
            RespValue::SimpleString(s) => seq![s@] + simple_strings(vs, k + 1),
            _ => simple_strings(vs, k + 1),
        }
    } else {
        seq![]
    }
}

/// Reads the entries of an index definition from the `k`-th on: its key type
/// and its key prefixes.
pub open spec fn definition_fold(
    st: IndexInfoView,
    es: Seq<(RespValue, RespValue)>,
    k: int,
) -> IndexInfoView
    decreases es.len() - k,
{
    if 0 <= k < es.len() {
        let st2 = match es[k].0 {
            RespValue::SimpleString(key) => {
                let st1 = if key@ == "key_type"@ {
                    match es[k].1 {
                        RespValue::SimpleString(v) => IndexInfoView { key_type: v@, ..st },
                        _ => st,
                    }
                } else {
                    st
                };
                if key@ == "prefixes"@ {
                    match es[k].1 {
                        RespValue::Array(vs) => IndexInfoView {
                            prefixes: st1.prefixes + simple_strings(vs@, 0),
                            ..st1
                        },
                        _ => st1,
                    }
                } else {
                    st1
                }
            },
            _ => st,
        };
        definition_fold(st2, es, k + 1)
    } else {
        st
    }
}

/// Reads the entries of an attribute description from the `k`-th on.
pub open spec fn attribute_fold(a: AttrView, es: Seq<(RespValue, RespValue)>, k: int) -> AttrView
    decreases es.len() - k,
{
    if 0 <= k < es.len() {
        let a2 = match (es[k].0, es[k].1) {
            (RespValue::SimpleString(key), RespValue::SimpleString(v)) => if key@ == "identifier"@ {
                (v@, a.1, a.2)
            } else if key@ == "attribute"@ {
                (a.0, v@, a.2)
            } else if key@ == "type"@ {
                (a.0, a.1, v@)
            } else {
                a
            },
            _ => a,
        };
        attribute_fold(a2, es, k + 1)
    } else {
        a
    }
}

/// The attributes described by the maps among the values from the `k`-th on.
pub open spec fn attributes_list(vs: Seq<RespValue>, k: int) -> Seq<AttrView>
    decreases vs.len() - k,
{
    if 0 <= k < vs.len() {
        match vs[k] {
            RespValue::MapOf(es) => seq![attribute_fold((seq![], seq![], seq![]), es@, 0)]
                + attributes_list(vs, k + 1),
            _ => attributes_list(vs, k + 1),
        }
    } else {
        seq![]
    }
}

/// Reads one entry of an `FT.INFO` reply.
pub open spec fn info_step(st: IndexInfoView, key: RespValue, value: RespValue) -> IndexInfoView {
    match key {
        RespValue::SimpleString(k) => if k@ == "index_name"@ {
            match value {
                RespValue::SimpleString(v) => IndexInfoView { name: v@, ..st },
                _ => st,
            }
        } else if k@ == "index_definition"@ {
            match value {
                RespValue::MapOf(es) => definition_fold(st, es@, 0),
                _ => st,
            }
        } else if k@ == "attributes"@ {
            match value {
                RespValue::Array(vs) => IndexInfoView {
                    attributes: st.attributes + attributes_list(vs@, 0),
                    ..st
                },
                _ => st,
            }
        } else if k@ == "num_docs"@ {
            match value {
                RespValue::Int(n) => IndexInfoView { num_docs: n, ..st },
                _ => st,
            }
        } else if k@ == "max_doc_id"@ {
            match value {
                RespValue::Int(n) => IndexInfoView { max_doc_id: n, ..st },
                _ => st,
            }
        } else if k@ == "total_index_memory_sz_mb"@ {
            match value {
                RespValue::Double { bits, text } => IndexInfoView { mem_bits: bits, ..st },
                _ => st,
            }
        } else {
            st
        },
        _ => st,
    }
}

/// Reads the entries of an `FT.INFO` reply from the `k`-th on.
pub open spec fn info_fold(st: IndexInfoView, es: Seq<(RespValue, RespValue)>, k: int) -> IndexInfoView
    decreases es.len() - k,
{
    if 0 <= k < es.len() {
        info_fold(info_step(st, es[k].0, es[k].1), es, k + 1)
    } else {
        st
    }
}

/// The index information in an `FT.INFO` reply; a reply that is not a map
/// tells nothing.
pub open spec fn spec_index_info(v: RespValue) -> IndexInfoView {
    match v {
        RespValue::MapOf(es) => info_fold(empty_index_info(), es@, 0),
        _ => empty_index_info(),
    }
}

fn clone_string(s: &String) -> (r: String)
    ensures
        r@ == s@,
{
    s.clone()
}

fn push_simple_strings(out: &mut Vec<String>, vs: &Vec<RespValue>)
    ensures
        final(out)@.map_values(|p: String| p@) == old(out)@.map_values(|p: String| p@)
            + simple_strings(vs@, 0),
{
    let ghost target = old(out)@.map_values(|p: String| p@) + simple_strings(vs@, 0);
    let mut k: usize = 0;
    proof {
        assert(old(out)@.map_values(|p: String| p@) + simple_strings(vs@, 0) == target);
    }
    while k < vs.len()
        invariant
            k <= vs.len(),
            out@.map_values(|p: String| p@) + simple_strings(vs@, k as int) == target,
        decreases vs.len() - k,
    {
        let ghost before = out@.map_values(|p: String| p@);
        match &vs[k] {
            RespValue::SimpleString(s) => {
                out.push(clone_string(s));
                proof {
                    assert(out@.map_values(|p: String| p@) =~= before.push(s@));
                    assert(before + simple_strings(vs@, k as int) =~= out@.map_values(|p: String| p@)
                        + simple_strings(vs@, k + 1));
                }
            },
            _ => {},
        }
        k = k + 1;
    }
    proof {
        assert(out@.map_values(|p: String| p@) + simple_strings(vs@, k as int) =~= out@.map_values(|p: String| p@));
    }
}

fn read_definition(info: &mut IndexInfo, es: &Vec<(RespValue, RespValue)>)
    ensures
        final(info)@ == definition_fold(old(info)@, es@, 0),
{
    let ghost target = definition_fold(old(info)@, es@, 0);
    let mut k: usize = 0;
    while k < es.len()
        invariant
            k <= es.len(),
            definition_fold(info@, es@, k as int) == target,
        decreases es.len() - k,
    {
        match &es[k].0 {
            RespValue::SimpleString(key) => {
                if str_eq(key.as_str(), "key_type") {
                    match &es[k].1 {
                        RespValue::SimpleString(v) => {
                            info.key_type = clone_string(v);
                        },
                        _ => {},
                    }
                }
                if str_eq(key.as_str(), "prefixes") {
                    match &es[k].1 {
                        RespValue::Array(vs) => {
                            push_simple_strings(&mut info.prefixes, vs);
                        },
                        _ => {},
                    }
                }
            },
            _ => {},
        }
        k = k + 1;
    }
}

fn read_attribute(es: &Vec<(RespValue, RespValue)>) -> (r: AttributeInfo)
    ensures
        (r.identifier@, r.attribute@, r.kind@) == attribute_fold((seq![], seq![], seq![]), es@, 0),
{
    let mut a = AttributeInfo { identifier: String::new(), attribute: String::new(), kind: String::new() };
    let mut k: usize = 0;
    while k < es.len()
        invariant
            k <= es.len(),
            attribute_fold((a.identifier@, a.attribute@, a.kind@), es@, k as int) == attribute_fold(
                (seq![], seq![], seq![]),
                es@,
                0,
            ),
        decreases es.len() - k,
    {
        match (&es[k].0, &es[k].1) {
            (RespValue::SimpleString(key), RespValue::SimpleString(v)) => {
                if str_eq(key.as_str(), "identifier") {
                    a.identifier = clone_string(v);
                } else if str_eq(key.as_str(), "attribute") {
                    a.attribute = clone_string(v);
                } else if str_eq(key.as_str(), "type") {
                    a.kind = clone_string(v);
                }
            },
            _ => {},
        }
        k = k + 1;
    }
    a
}

fn read_attributes(out: &mut Vec<AttributeInfo>, vs: &Vec<RespValue>)
    ensures
        final(out)@.map_values(|a: AttributeInfo| (a.identifier@, a.attribute@, a.kind@)) == old(
            out,
        )@.map_values(|a: AttributeInfo| (a.identifier@, a.attribute@, a.kind@)) + attributes_list(
            vs@,
            0,
        ),
{
    let ghost target = old(out)@.map_values(|a: AttributeInfo| (a.identifier@, a.attribute@, a.kind@))
        + attributes_list(vs@, 0);
    let mut k: usize = 0;
    while k < vs.len()
        invariant
            k <= vs.len(),
            out@.map_values(|a: AttributeInfo| (a.identifier@, a.attribute@, a.kind@)) + attributes_list(
                vs@,
                k as int,
            ) == target,
        decreases vs.len() - k,
    {
        let ghost before = out@.map_values(|a: AttributeInfo| (a.identifier@, a.attribute@, a.kind@));
        match &vs[k] {
            RespValue::MapOf(es) => {
                let a = read_attribute(es);
                let ghost av = (a.identifier@, a.attribute@, a.kind@);
                out.push(a);
                proof {
                    assert(out@.map_values(|a: AttributeInfo| (a.identifier@, a.attribute@, a.kind@))
                        =~= before.push(av));
                    assert(before + attributes_list(vs@, k as int) =~= out@.map_values(
                        |a: AttributeInfo| (a.identifier@, a.attribute@, a.kind@),
                    ) + attributes_list(vs@, k + 1));
                }
            },
            _ => {},
        }
        k = k + 1;
    }
    proof {
        assert(out@.map_values(|a: AttributeInfo| (a.identifier@, a.attribute@, a.kind@))
            + attributes_list(vs@, k as int) =~= out@.map_values(
            |a: AttributeInfo| (a.identifier@, a.attribute@, a.kind@),
        ));
    }
}

impl IndexInfo {
    /// Reads the information of a search index from its `FT.INFO` reply:
    /// its name, key type and prefixes, its attributes, document counts and
    /// memory size.  Entries the reader does not know are skipped, and a
    /// reply that is not a map gives empty information.
    pub fn from_resp(v: &RespValue) -> (r: IndexInfo)
        ensures
            r@ == spec_index_info(*v),
    {
        let mut info = IndexInfo {
            name: String::new(),
            key_type: String::new(),
            prefixes: Vec::new(),
            attributes: Vec::new(),
            num_docs: 0,
            max_doc_id: 0,
            total_index_memory_sz_mb_bits: 0,
        };
        proof {
            assert(info@.prefixes =~= Seq::<Seq<char>>::empty());
            assert(info@.attributes =~= Seq::<AttrView>::empty());
            assert(info@ == empty_index_info());
        }
        match v {
            RespValue::MapOf(es) => {
                let mut k: usize = 0;
                while k < es.len()
                    invariant
                        k <= es.len(),
                        *v == RespValue::MapOf(*es),
                        info_fold(info@, es@, k as int) == info_fold(empty_index_info(), es@, 0),
                    decreases es.len() - k,
                {
                    let key = &es[k].0;
                    let value = &es[k].1;
                    match key {
                        RespValue::SimpleString(name) => {
                            if str_eq(name.as_str(), "index_name") {
                                match value {
                                    RespValue::SimpleString(s) => {
                                        info.name = clone_string(s);
                                    },
                                    _ => {},
                                }
                            } else if str_eq(name.as_str(), "index_definition") {
                                match value {
                                    RespValue::MapOf(d) => {
                                        read_definition(&mut info, d);
                                    },
                                    _ => {},
                                }
                            } else if str_eq(name.as_str(), "attributes") {
                                match value {
                                    RespValue::Array(vs) => {
                                        read_attributes(&mut info.attributes, vs);
                                    },
                                    _ => {},
                                }
                            } else if str_eq(name.as_str(), "num_docs") {
                                match value {
                                    RespValue::Int(n) => {
                                        info.num_docs = *n;
                                    },
                                    _ => {},
                                }
                            } else if str_eq(name.as_str(), "max_doc_id") {
                                match value {
                                    RespValue::Int(n) => {
                                        info.max_doc_id = *n;
                                    },
                                    _ => {},
                                }
                            } else if str_eq(name.as_str(), "total_index_memory_sz_mb") {
                                match value {
                                    RespValue::Double { bits, text: _ } => {
                                        info.total_index_memory_sz_mb_bits = *bits;
                                    },
                                    _ => {},
                                }
                            }
                        },
                        _ => {},
                    }
                    k = k + 1;
                }
            },
            _ => {},
        }
        info
    }
}

// ---------------------------------------------------------------------------
// Suggestions for a search query
// ---------------------------------------------------------------------------
/// The part of the search help that every attribute shares.
pub open spec fn base_summary() -> Seq<char> {
    "Dialect 2\n1. AND, multi-word phrases that imply intersection\n  @{}:(<q1> <q2>)\n2. \"...\" (exact), ~ (optional), - (negation), and % (fuzzy)\n3. OR, words separated by the | (pipe) character that imply union\n  @{}:(<q1> | <q2>)\n4. Wildcard characters\n  @{}:\"w'foo*bar'\"\n"@
}

fn base_summary_text() -> (r: String)
    ensures
        r@ == base_summary(),
{
    String::from_str(
        "Dialect 2\n1. AND, multi-word phrases that imply intersection\n  @{}:(<q1> <q2>)\n2. \"...\" (exact), ~ (optional), - (negation), and % (fuzzy)\n3. OR, words separated by the | (pipe) character that imply union\n  @{}:(<q1> | <q2>)\n4. Wildcard characters\n  @{}:\"w'foo*bar'\"\n",
    )
}

/// The texts of an attribute's suggestion, each as the pieces that the
/// attribute's name joins: what it inserts, its syntax and its help.  The
/// help depends on the attribute's type: `NUMERIC`, `TAG`, `GEO`, or any
/// other.
pub open spec fn attr_templates(kind: Seq<char>) -> (Seq<Seq<char>>, Seq<Seq<char>>, Seq<Seq<char>>) {
    if kind == "NUMERIC"@ {
        (
            seq!["'@"@, "$end'"@],
            seq!["@"@, "<op><q>"@],
            seq![
                "Search by number\n- Equal: @"@,
                ":[q] | @"@,
                "==<q>\n- Not equal: @"@,
                "!=<q>\n- Compare: @"@,
                "[ > | < | >= | <= ]<q>\n- Range: @"@,
                ":[min max]\n\n"@ + base_summary() + "\n"@,
            ],
        )
    } else if kind == "TAG"@ {
        (
            seq!["'@"@, ":{$end}'"@],
            seq!["@"@, ":{<q>}"@],
            seq!["Search by TAG:\n- @"@, ":{q}\n\n"@ + base_summary() + "\n"@],
        )
    } else if kind == "GEO"@ {
        (
            seq!["'@"@, ":[$end]'"@],
            seq!["@"@, ":[...]"@],
            seq![
                "Search by distance from LON/LAT:\n@"@,
                ":[<LON> <LAT> <RADIUS> m|km|mi|ft]\nDialect 3 WITHIN and CONTAINS operator\n@"@,
                ":[WITHIN|CONTAINS $poly] params 2 poly 'POLYGON((...))\n\n"@ + base_summary() + "\n"@,
            ],
        )
    } else {
        (seq!["'@"@, ":\"$end\"'"@], seq!["@"@, ":<q>"@], seq![base_summary()])
    }
}

/// The suggestion for an attribute of the index, replacing `start..end`.
pub open spec fn attr_item(a: AttrView, start: int, end: int) -> ItemView {
    let (ins, syn, sum) = attr_templates(a.2);
    ItemView {
        kind: CompletionItemKind::Attr,
        label: seq!['@'] + a.1,
        detail: Some(a.2),
        description: Some(
            DocView {
                syntax: join(syn, a.1),
                summary: join(sum, a.1),
                attributes: seq![("identifier "@, a.0), ("type       "@, a.2)],
            },
        ),
        parameters: seq![],
        range: (start, end),
        insert_text: join(ins, a.1),
    }
}

/// The attributes whose lower-cased name holds the lower-cased typed text,
/// as suggestions.
pub open spec fn attr_items(attrs: Seq<AttrView>, segment: Seq<char>, start: int, end: int) -> Seq<
    ItemView,
>
    decreases attrs.len(),
{
    if attrs.len() == 0 {
        seq![]
    } else {
        let rest = attr_items(attrs.drop_last(), segment, start, end);
        let a = attrs.last();
        if seq_contains(spec_to_lowercase(a.1), spec_to_lowercase(segment)) {
            rest.push(attr_item(a, start, end))
        } else {
            rest
        }
    }
}

/// The search arguments whose lower-cased label holds the lower-cased typed
/// text.
pub open spec fn matching_items(items: Seq<ItemView>, segment: Seq<char>) -> Seq<ItemView>
    decreases items.len(),
{
    if items.len() == 0 {
        seq![]
    } else {
        let rest = matching_items(items.drop_last(), segment);
        if seq_contains(spec_to_lowercase(items.last().label), spec_to_lowercase(segment)) {
            rest.push(items.last())
        } else {
            rest
        }
    }
}

/// The typed text of the word under the cursor; empty when the cursor is on
/// no word.
pub open spec fn search_segment(input: Seq<char>, args: Seq<ArgSpan>, cursor: int) -> Seq<char> {
    match current_word(args, cursor, 0) {
        Some(k) => spec_substring(input, args[k].start as int, cursor),
        None => seq![],
    }
}

/// The range a suggestion replaces: the word under the cursor, or all of
/// the input.
pub open spec fn search_range(args: Seq<ArgSpan>, cursor: int) -> (int, int) {
    match current_word(args, cursor, 0) {
        Some(k) => ((args[k].start as isize) as int, (args[k].end as isize) as int),
        None => (0, -1),
    }
}

/// The suggestions for a search query: the index's attributes that match
/// the typed text (where the index is known), then the matching search
/// arguments; and the typed text.
pub open spec fn spec_search_items(
    input: Seq<char>,
    cursor: int,
    args: Seq<ArgSpan>,
    info: Option<IndexInfoView>,
) -> (Seq<ItemView>, Seq<char>) {
    let segment = search_segment(input, args, cursor);
    let (start, end) = search_range(args, cursor);
    let attrs = match info {
        Some(i) => attr_items(i.attributes, segment, start, end),
        None => seq![],
    };
    (attrs + matching_items(ft_search_argument_list(start, end), segment), segment)
}

fn push_piece(v: &mut Vec<String>, s: String)
    ensures
        strs_view(final(v)@) == strs_view(old(v)@).push(s@),
{
    let ghost before = v@;
    let ghost sv = s@;
    v.push(s);
    proof {
        assert(strs_view(v@) =~= strs_view(before).push(sv));
    }
}

fn with_base(head: &str) -> (r: String)
    ensures
        r@ == head@ + base_summary() + "\n"@,
{
    let mut v: Vec<char> = to_chars(head);
    let b = base_summary_text();
    crate::text::push_str_chars(&mut v, b.as_str());
    crate::text::push_str_chars(&mut v, "\n");
    proof {
        assert(v@ =~= head@ + base_summary() + "\n"@);
    }
    crate::text::from_chars(&v)
}

fn templates(kind: &str) -> (r: (Vec<String>, Vec<String>, Vec<String>))
    ensures
        (strs_view(r.0@), strs_view(r.1@), strs_view(r.2@)) == attr_templates(kind@),
{
    let mut ins: Vec<String> = Vec::new();
    let mut syn: Vec<String> = Vec::new();
    let mut sum: Vec<String> = Vec::new();
    push_piece(&mut ins, String::from_str("'@"));
    push_piece(&mut syn, String::from_str("@"));
    if str_eq(kind, "NUMERIC") {
        push_piece(&mut ins, String::from_str("$end'"));
        push_piece(&mut syn, String::from_str("<op><q>"));
        push_piece(&mut sum, String::from_str("Search by number\n- Equal: @"));
        push_piece(&mut sum, String::from_str(":[q] | @"));
        push_piece(&mut sum, String::from_str("==<q>\n- Not equal: @"));
        push_piece(&mut sum, String::from_str("!=<q>\n- Compare: @"));
        push_piece(&mut sum, String::from_str("[ > | < | >= | <= ]<q>\n- Range: @"));
        push_piece(&mut sum, with_base(":[min max]\n\n"));
    } else if str_eq(kind, "TAG") {
        push_piece(&mut ins, String::from_str(":{$end}'"));
        push_piece(&mut syn, String::from_str(":{<q>}"));
        push_piece(&mut sum, String::from_str("Search by TAG:\n- @"));
        push_piece(&mut sum, with_base(":{q}\n\n"));
    } else if str_eq(kind, "GEO") {
        push_piece(&mut ins, String::from_str(":[$end]'"));
        push_piece(&mut syn, String::from_str(":[...]"));
        push_piece(&mut sum, String::from_str("Search by distance from LON/LAT:\n@"));
        push_piece(
            &mut sum,
            String::from_str(
                ":[<LON> <LAT> <RADIUS> m|km|mi|ft]\nDialect 3 WITHIN and CONTAINS operator\n@",
            ),
        );
        push_piece(
            &mut sum,
            with_base(":[WITHIN|CONTAINS $poly] params 2 poly 'POLYGON((...))\n\n"),
        );
    } else {
        push_piece(&mut ins, String::from_str(":\"$end\"'"));
        push_piece(&mut syn, String::from_str(":<q>"));
        push_piece(&mut sum, base_summary_text());
    }
    proof {
        assert(strs_view(ins@) =~= attr_templates(kind@).0);
        assert(strs_view(syn@) =~= attr_templates(kind@).1);
        assert(strs_view(sum@) =~= attr_templates(kind@).2);
    }
    (ins, syn, sum)
}

fn attribute_item(a: &AttributeInfo, start: isize, end: isize) -> (r: CompletionItem)
    ensures
        r@ == attr_item((a.identifier@, a.attribute@, a.kind@), start as int, end as int),
{
    let (ins, syn, sum) = templates(a.kind.as_str());
    let mut label: Vec<char> = Vec::new();
    label.push('@');
    crate::text::push_str_chars(&mut label, a.attribute.as_str());
    let label_s = crate::text::from_chars(&label);
    let insert = join_strings(&ins, a.attribute.as_str());
    let syntax = join_strings(&syn, a.attribute.as_str());
    let summary = join_strings(&sum, a.attribute.as_str());
    let doc = Doc::new().syntax(syntax.as_str()).summary(summary.as_str()).attribute(
        "identifier ",
        a.identifier.as_str(),
    ).attribute("type       ", a.kind.as_str());
    let ghost dv = doc@;
    let r = CompletionItem::custom(label_s.as_str(), CompletionItemKind::Attr).insert_text(
        insert.as_str(),
    ).detail(a.kind.as_str()).description(doc).range(start, end);
    proof {
        assert(dv.attributes =~= seq![("identifier "@, a.identifier@), ("type       "@, a.kind@)]);
        assert(label@ =~= seq!['@'] + a.attribute@);
    }
    r
}

fn lower_contains(text: &str, lower_segment: &Vec<char>) -> (r: bool)
    ensures
        r == seq_contains(spec_to_lowercase(text@), lower_segment@),
{
    let l = to_lowercase(text);
    let lv = to_chars(l.as_str());
    contains_chars(&lv, lower_segment)
}

/// The suggestions for a search query, as `spec_search_items` says; `args`
/// are the query's words with their ranges, `info` the chosen index's
/// information, where known.
pub fn get_search_items(
    input: &str,
    cursor_x: usize,
    args: &Vec<ArgSpan>,
    info: Option<&IndexInfo>,
) -> (r: (Vec<CompletionItem>, String))
    ensures
        (items_view(r.0@), r.1@) == spec_search_items(
            input@,
            cursor_x as int,
            args@,
            match info {
                Some(i) => Some(i@),
                None => None,
            },
        ),
{
    let cw = find_current_word(args, cursor_x);
    let (segment, start, end) = match cw {
        Some(k) => (
            substring(input, args[k].start, cursor_x),
            #[verifier::truncate] (args[k].start as isize),
            #[verifier::truncate] (args[k].end as isize),
        ),
        None => (String::new(), 0isize, -1isize),
    };
    let ghost seg = segment@;
    proof {
        assert(seg == search_segment(input@, args@, cursor_x as int));
        assert((start as int, end as int) == search_range(args@, cursor_x as int));
    }
    let lower_seg = to_lowercase(segment.as_str());
    let lseg = to_chars(lower_seg.as_str());
    let mut items: Vec<CompletionItem> = Vec::new();
    if let Some(i) = info {
        let ghost attrs = i@.attributes;
        let mut k: usize = 0;
        while k < i.attributes.len()
            invariant
                k <= i.attributes.len(),
                attrs == i@.attributes,
                lseg@ == spec_to_lowercase(seg),
                items_view(items@) == attr_items(attrs.take(k as int), seg, start as int, end as int),
            decreases i.attributes.len() - k,
        {
            let a = &i.attributes[k];
            proof {
                assert(attrs.take(k + 1).drop_last() =~= attrs.take(k as int));
                assert(attrs.take(k + 1).last() == (a.identifier@, a.attribute@, a.kind@));
            }
            if lower_contains(a.attribute.as_str(), &lseg) {
                let ghost before = items@;
                let it = attribute_item(a, start, end);
                items.push(it);
                proof {
                    assert(items_view(items@) =~= items_view(before).push(it@));
                }
            }
            k = k + 1;
        }
        proof {
            assert(attrs.take(attrs.len() as int) =~= attrs);
        }
    }
    let ghost attr_part = items_view(items@);
    let all = get_ft_search_arguments(start, end);
    let ghost av = items_view(all@);
    let mut k: usize = 0;
    while k < all.len()
        invariant
            k <= all.len(),
            av == items_view(all@),
            av == ft_search_argument_list(start as int, end as int),
            lseg@ == spec_to_lowercase(seg),
            items_view(items@) == attr_part + matching_items(av.take(k as int), seg),
        decreases all.len() - k,
    {
        proof {
            assert(av.take(k + 1).drop_last() =~= av.take(k as int));
            assert(av.take(k + 1).last() == all@[k as int]@);
        }
        if lower_contains(all[k].label.label.as_str(), &lseg) {
            let ghost before = items@;
            let it = all[k].duplicate();
            items.push(it);
            proof {
                assert(items_view(items@) =~= items_view(before).push(it@));
            }
        }
        k = k + 1;
    }
    proof {
        assert(av.take(av.len() as int) =~= av);
    }
    (items, segment)
}

} // verus!
