//! Cache keys for definition search results, and the fixed sets of key
//! patterns cleared when definitions change.
use vstd::prelude::*;
use crate::numfmt::dec_int;

verus! {

/// The caller's search query as the HTTP layer hands it over: every field
/// optional, defaults applied when the key is built.
#[derive(Debug, Clone, PartialEq, Eq)]
pub struct SearchDefinitionsQuery {
    pub page: Option<i64>,
    pub per_page: Option<i64>,
    pub search: Option<String>,
    pub sort_by: Option<String>,
    pub sort_order: Option<String>,
    pub include_comments: Option<bool>,
    pub languages: Option<String>,
    pub selmaho: Option<String>,
    pub word_type: Option<i64>,
    pub username: Option<String>,
    pub source_langid: Option<i64>,
}

pub struct SearchDefinitionsQueryV {
    pub page: Option<i64>,
    pub per_page: Option<i64>,
    pub search: Option<Seq<char>>,
    pub sort_by: Option<Seq<char>>,
    pub sort_order: Option<Seq<char>>,
    pub include_comments: Option<bool>,
    pub languages: Option<Seq<char>>,
    pub selmaho: Option<Seq<char>>,
    pub word_type: Option<i64>,
    pub username: Option<Seq<char>>,
    pub source_langid: Option<i64>,
}

impl DeepView for SearchDefinitionsQuery {
    type V = SearchDefinitionsQueryV;

    open spec fn deep_view(&self) -> SearchDefinitionsQueryV {
        SearchDefinitionsQueryV {
            page: self.page,
            per_page: self.per_page,
            search: self.search.deep_view(),
            sort_by: self.sort_by.deep_view(),
            sort_order: self.sort_order.deep_view(),
            include_comments: self.include_comments,
            languages: self.languages.deep_view(),
            selmaho: self.selmaho.deep_view(),
            word_type: self.word_type,
            username: self.username.deep_view(),
            source_langid: self.source_langid,
        }
    }
}

/// An optional text field, or its default.
pub open spec fn opt_text(o: Option<Seq<char>>, default: Seq<char>) -> Seq<char> {
    match o {
        Some(s) => s,
        None => default,
    }
}

/// The decimal text of an optional number, or of its default.
pub open spec fn opt_num(o: Option<i64>, default: int) -> Seq<char> {
    match o {
        Some(v) => dec_int(v as int),
        None => dec_int(default),
    }
}

/// The text of an optional flag, or of its default.
pub open spec fn opt_flag(o: Option<bool>, default: bool) -> Seq<char> {
    let b = match o {
        Some(v) => v,
        None => default,
    };
    if b {
        "true"@
    } else {
        "false"@
    }
}

/// The cache key of one keyword search: the path prefix and every
/// pagination, filter, and sort option, colon-separated, defaults applied.
pub open spec fn search_key_view(q: SearchDefinitionsQueryV, use_fast_search: bool) -> Seq<char> {
    (if use_fast_search {
        "fast_search"@
    } else {
        "search"@
    }) + ":"@ + opt_num(q.page, 1) + ":"@ + opt_num(q.per_page, 20) + ":"@ + opt_text(
        q.search,
        Seq::empty(),
    ) + ":"@ + opt_text(q.sort_by, "word"@) + ":"@ + opt_text(q.sort_order, "asc"@) + ":"@
        + opt_flag(q.include_comments, false) + ":"@ + opt_text(q.languages, Seq::empty()) + ":"@
        + opt_text(q.selmaho, Seq::empty()) + ":"@ + opt_num(q.word_type, 0) + ":"@ + opt_text(
        q.username,
        Seq::empty(),
    ) + ":"@ + opt_num(q.source_langid, 1)
}

/// The cache key of one semantic search: the search term and every filter
/// relevant to semantic search, colon-separated, defaults applied.  Sort
/// order and comment inclusion are fixed for semantic search and so carry
/// no key part.
pub open spec fn semantic_search_key_view(q: SearchDefinitionsQueryV) -> Seq<char> {
    "semantic_search:"@ + opt_text(q.search, Seq::empty()) + ":"@ + opt_num(q.page, 1) + ":"@
        + opt_num(q.per_page, 20) + ":"@ + opt_text(q.languages, Seq::empty()) + ":"@ + opt_text(
        q.selmaho,
        Seq::empty(),
    ) + ":"@ + opt_text(q.username, Seq::empty()) + ":"@ + opt_num(q.word_type, 0) + ":"@
        + opt_num(q.source_langid, 1)
}

fn push_opt_text(out: &mut Vec<char>, o: &Option<String>, default: &str)
    ensures
        final(out)@ == old(out)@ + opt_text(
            match o {
                Some(s) => Some(s@),
                None => None,
            },
            default@,
        ),
{
    match o {
        Some(s) => crate::chars::push_chars(out, s.as_str()),
        None => crate::chars::push_chars(out, default),
    }
}

fn push_opt_num(out: &mut Vec<char>, o: &Option<i64>, default: i64)
    ensures
        final(out)@ == old(out)@ + opt_num(*o, default as int),
{
    match o {
        Some(v) => crate::numfmt::push_dec_i64(out, *v),
        None => crate::numfmt::push_dec_i64(out, default),
    }
}

fn push_opt_flag(out: &mut Vec<char>, o: &Option<bool>, default: bool)
    ensures
        final(out)@ == old(out)@ + opt_flag(*o, default),
{
    let b = match o {
        Some(v) => *v,
        None => default,
    };
    if b {
        crate::chars::push_chars(out, "true");
    } else {
        crate::chars::push_chars(out, "false");
    }
}

/// Builds the cache key for a keyword search.  The prefix distinguishes the
/// fast path from the full path, so cached fast-path results never serve
/// full-path requests.
#[verifier::rlimit(30)]
pub fn generate_search_cache_key(query: &SearchDefinitionsQuery, use_fast_search: bool) -> (r:
    String)
    ensures
        r@ == search_key_view(query.deep_view(), use_fast_search),
{
    let ghost q = query.deep_view();
    let mut out: Vec<char> = Vec::new();
    if use_fast_search {
        crate::chars::push_chars(&mut out, "fast_search");
    } else {
        crate::chars::push_chars(&mut out, "search");
    }
    let ghost mut acc: Seq<char> = out@;
    crate::chars::push_chars(&mut out, ":");
    proof {
        acc = acc + ":"@;
        assert(out@ == acc);
    }
    push_opt_num(&mut out, &query.page, 1);
    proof {
        acc = acc + opt_num(q.page, 1);
        assert(out@ == acc);
    }
    crate::chars::push_chars(&mut out, ":");
    proof {
        acc = acc + ":"@;
        assert(out@ == acc);
    }
    push_opt_num(&mut out, &query.per_page, 20);
    proof {
        acc = acc + opt_num(q.per_page, 20);
        assert(out@ == acc);
    }
    crate::chars::push_chars(&mut out, ":");
    proof {
        acc = acc + ":"@;
        assert(out@ == acc);
    }
    push_opt_text(&mut out, &query.search, "");
    proof {
        acc = acc + opt_text(q.search, ""@);
        assert(out@ == acc);
    }
    crate::chars::push_chars(&mut out, ":");
    proof {
        acc = acc + ":"@;
        assert(out@ == acc);
    }
    push_opt_text(&mut out, &query.sort_by, "word");
    proof {
        acc = acc + opt_text(q.sort_by, "word"@);
        assert(out@ == acc);
    }
    crate::chars::push_chars(&mut out, ":");
    proof {
        acc = acc + ":"@;
        assert(out@ == acc);
    }
    push_opt_text(&mut out, &query.sort_order, "asc");
    proof {
        acc = acc + opt_text(q.sort_order, "asc"@);
        assert(out@ == acc);
    }
    crate::chars::push_chars(&mut out, ":");
    proof {
        acc = acc + ":"@;
        assert(out@ == acc);
    }
    push_opt_flag(&mut out, &query.include_comments, false);
    proof {
        acc = acc + opt_flag(q.include_comments, false);
        assert(out@ == acc);
    }
    crate::chars::push_chars(&mut out, ":");
    proof {
        acc = acc + ":"@;
        assert(out@ == acc);
    }
    push_opt_text(&mut out, &query.languages, "");
    proof {
        acc = acc + opt_text(q.languages, ""@);
        assert(out@ == acc);
    }
    crate::chars::push_chars(&mut out, ":");
    proof {
        acc = acc + ":"@;
        assert(out@ == acc);
    }
    push_opt_text(&mut out, &query.selmaho, "");
    proof {
        acc = acc + opt_text(q.selmaho, ""@);
        assert(out@ == acc);
    }
    crate::chars::push_chars(&mut out, ":");
    proof {
        acc = acc + ":"@;
        assert(out@ == acc);
    }
    push_opt_num(&mut out, &query.word_type, 0);
    proof {
        acc = acc + opt_num(q.word_type, 0);
        assert(out@ == acc);
    }
    crate::chars::push_chars(&mut out, ":");
    proof {
        acc = acc + ":"@;
        assert(out@ == acc);
    }
    push_opt_text(&mut out, &query.username, "");
    proof {
        acc = acc + opt_text(q.username, ""@);
        assert(out@ == acc);
    }
    crate::chars::push_chars(&mut out, ":");
    proof {
        acc = acc + ":"@;
        assert(out@ == acc);
    }
    push_opt_num(&mut out, &query.source_langid, 1);
    proof {
        acc = acc + opt_num(q.source_langid, 1);
        assert(out@ == acc);
        reveal_strlit("");
        assert(""@ =~= Seq::<char>::empty());
        assert(acc == search_key_view(q, use_fast_search));
    }
    crate::chars::chars_to_string(&out)
}

/// Builds the cache key for a semantic search.
#[verifier::rlimit(30)]
pub fn generate_semantic_search_cache_key(query: &SearchDefinitionsQuery) -> (r: String)
    ensures
        r@ == semantic_search_key_view(query.deep_view()),
{
    let ghost q = query.deep_view();
    let mut out: Vec<char> = Vec::new();
    crate::chars::push_chars(&mut out, "semantic_search:");
    let ghost mut acc: Seq<char> = out@;
    push_opt_text(&mut out, &query.search, "");
    proof {
        acc = acc + opt_text(q.search, ""@);
        assert(out@ == acc);
    }
    crate::chars::push_chars(&mut out, ":");
    proof {
        acc = acc + ":"@;
        assert(out@ == acc);
    }
    push_opt_num(&mut out, &query.page, 1);
    proof {
        acc = acc + opt_num(q.page, 1);
        assert(out@ == acc);
    }
    crate::chars::push_chars(&mut out, ":");
    proof {
        acc = acc + ":"@;
        assert(out@ == acc);
    }
    push_opt_num(&mut out, &query.per_page, 20);
    proof {
        acc = acc + opt_num(q.per_page, 20);
        assert(out@ == acc);
    }
    crate::chars::push_chars(&mut out, ":");
    proof {
        acc = acc + ":"@;
        assert(out@ == acc);
    }
    push_opt_text(&mut out, &query.languages, "");
    proof {
        acc = acc + opt_text(q.languages, ""@);
        assert(out@ == acc);
    }
    crate::chars::push_chars(&mut out, ":");
    proof {
        acc = acc + ":"@;
        assert(out@ == acc);
    }
    push_opt_text(&mut out, &query.selmaho, "");
    proof {
        acc = acc + opt_text(q.selmaho, ""@);
        assert(out@ == acc);
    }
    crate::chars::push_chars(&mut out, ":");
    proof {
        acc = acc + ":"@;
        assert(out@ == acc);
    }
    push_opt_text(&mut out, &query.username, "");
    proof {
        acc = acc + opt_text(q.username, ""@);
        assert(out@ == acc);
    }
    crate::chars::push_chars(&mut out, ":");
    proof {
        acc = acc + ":"@;
        assert(out@ == acc);
    }
    push_opt_num(&mut out, &query.word_type, 0);
    proof {
        acc = acc + opt_num(q.word_type, 0);
        assert(out@ == acc);
    }
    crate::chars::push_chars(&mut out, ":");
    proof {
        acc = acc + ":"@;
        assert(out@ == acc);
    }
    push_opt_num(&mut out, &query.source_langid, 1);
    proof {
        acc = acc + opt_num(q.source_langid, 1);
        assert(out@ == acc);
        reveal_strlit("");
        assert(""@ =~= Seq::<char>::empty());
        assert(acc == semantic_search_key_view(q));
    }
    crate::chars::chars_to_string(&out)
}

/// The key patterns that may hold definition list or search results:
/// keyword search, fast search, and semantic search.  All of them are
/// cleared when definitions or votes change.
pub fn definition_search_cache_patterns() -> (r: Vec<String>)
    ensures
        r.deep_view() =~= seq!["search:*"@, "fast_search:*"@, "semantic_search:*"@],
{
    let mut v: Vec<String> = Vec::new();
    v.push(String::from_str("search:*"));
    v.push(String::from_str("fast_search:*"));
    v.push(String::from_str("semantic_search:*"));
    v
}

/// The key pattern of the recent-changes page cache.
pub fn recent_changes_cache_pattern() -> (r: String)
    ensures
        r@ == "recent_changes:*"@,
{
    String::from_str("recent_changes:*")
}

} // verus!
