//! The search tool adapter's pure half: argument defaulting and clamping,
//! the search parameter set handed to the similarity-search collaborator,
//! and the compact JSON summaries fed back to the model.
use vstd::prelude::*;
use crate::jsonout::json_string;
use crate::numfmt::{dec_int, is_json_number};
use crate::text::spec_strip_mathjax;

verus! {

/// The typed arguments of the declared search tool.
#[derive(Debug, Clone, PartialEq, Eq)]
pub struct ToolArgs {
    pub query: String,
    pub limit: Option<u32>,
    pub languages: Option<Vec<i32>>,
    pub source_langid: Option<i32>,
}

pub struct ToolArgsV {
    pub query: Seq<char>,
    pub limit: Option<u32>,
    pub languages: Option<Seq<i32>>,
    pub source_langid: Option<i32>,
}

impl DeepView for ToolArgs {
    type V = ToolArgsV;

    open spec fn deep_view(&self) -> ToolArgsV {
        ToolArgsV {
            query: self.query@,
            limit: self.limit,
            languages: self.languages.deep_view(),
            source_langid: self.source_langid,
        }
    }
}

/// The parameter set handed to the similarity-search collaborator.
#[derive(Debug, Clone, PartialEq, Eq)]
pub struct SearchDefinitionsParams {
    pub page: i64,
    pub per_page: i64,
    pub search_term: String,
    pub include_comments: bool,
    pub sort_by: String,
    pub sort_order: String,
    pub languages: Option<Vec<i32>>,
    pub selmaho: Option<String>,
    pub username: Option<String>,
    pub word_type: Option<i32>,
    pub source_langid: Option<i32>,
}

pub struct SearchDefinitionsParamsV {
    pub page: i64,
    pub per_page: i64,
    pub search_term: Seq<char>,
    pub include_comments: bool,
    pub sort_by: Seq<char>,
    pub sort_order: Seq<char>,
    pub languages: Option<Seq<i32>>,
    pub selmaho: Option<Seq<char>>,
    pub username: Option<Seq<char>>,
    pub word_type: Option<i32>,
    pub source_langid: Option<i32>,
}

impl DeepView for SearchDefinitionsParams {
    type V = SearchDefinitionsParamsV;

    open spec fn deep_view(&self) -> SearchDefinitionsParamsV {
        SearchDefinitionsParamsV {
            page: self.page,
            per_page: self.per_page,
            search_term: self.search_term@,
            include_comments: self.include_comments,
            sort_by: self.sort_by@,
            sort_order: self.sort_order@,
            languages: self.languages.deep_view(),
            selmaho: self.selmaho.deep_view(),
            username: self.username.deep_view(),
            word_type: self.word_type,
            source_langid: self.source_langid,
        }
    }
}

/// The effective result limit: absent means 10, anything else is clamped
/// into [1, 50] rather than rejected.
pub open spec fn clamped_limit(limit: Option<u32>) -> int {
    match limit {
        None => 10,
        Some(v) => if v < 1 {
            1
        } else if v > 50 {
            50
        } else {
            v as int
        },
    }
}

/// Clamps the requested limit into the accepted range, defaulting to 10.
pub fn clamp_limit(limit: Option<u32>) -> (r: i64)
    ensures
        r == clamped_limit(limit),
        1 <= r <= 50,
{
    match limit {
        None => 10,
        Some(v) => if v < 1 {
            1
        } else if v > 50 {
            50
        } else {
            v as i64
        },
    }
}

/// The collaborator parameters built for one tool invocation: first page,
/// the clamped limit, the query verbatim, results ranked by score
/// descending, comments left out, and the caller's language filters passed
/// through.
pub open spec fn search_params_view(args: ToolArgsV) -> SearchDefinitionsParamsV {
    SearchDefinitionsParamsV {
        page: 1,
        per_page: clamped_limit(args.limit) as i64,
        search_term: args.query,
        include_comments: false,
        sort_by: "score"@,
        sort_order: "desc"@,
        languages: args.languages,
        selmaho: None,
        username: None,
        word_type: None,
        source_langid: args.source_langid,
    }
}

/// Builds the collaborator parameters for one tool invocation.
pub fn search_params(args: ToolArgs) -> (r: SearchDefinitionsParams)
    ensures
        r.deep_view() == search_params_view(args.deep_view()),
{
    let per_page = clamp_limit(args.limit);
    SearchDefinitionsParams {
        page: 1,
        per_page,
        search_term: args.query,
        include_comments: false,
        sort_by: String::from_str("score"),
        sort_order: String::from_str("desc"),
        languages: args.languages,
        selmaho: None,
        username: None,
        word_type: None,
        source_langid: args.source_langid,
    }
}

/// One ranked definition as the collaborator returns it.  Score and
/// similarity arrive already rendered as decimal text.
#[derive(Debug, Clone, PartialEq, Eq)]
pub struct DefinitionDetail {
    pub valsiword: String,
    pub definition: String,
    pub notes: Option<String>,
    pub langrealname: String,
    pub score_text: String,
    pub similarity_text: String,
    pub selmaho: Option<String>,
    pub jargon: Option<String>,
}

pub struct DefinitionDetailV {
    pub valsiword: Seq<char>,
    pub definition: Seq<char>,
    pub notes: Option<Seq<char>>,
    pub langrealname: Seq<char>,
    pub score_text: Seq<char>,
    pub similarity_text: Seq<char>,
    pub selmaho: Option<Seq<char>>,
    pub jargon: Option<Seq<char>>,
}

impl DeepView for DefinitionDetail {
    type V = DefinitionDetailV;

    open spec fn deep_view(&self) -> DefinitionDetailV {
        DefinitionDetailV {
            valsiword: self.valsiword@,
            definition: self.definition@,
            notes: self.notes.deep_view(),
            langrealname: self.langrealname@,
            score_text: self.score_text@,
            similarity_text: self.similarity_text@,
            selmaho: self.selmaho.deep_view(),
            jargon: self.jargon.deep_view(),
        }
    }
}

/// The ranked results and total row count of one search.
#[derive(Debug, Clone, PartialEq, Eq)]
pub struct SearchOutput {
    pub definitions: Vec<DefinitionDetail>,
    pub total: i64,
}

pub struct SearchOutputV {
    pub definitions: Seq<DefinitionDetailV>,
    pub total: i64,
}

impl DeepView for SearchOutput {
    type V = SearchOutputV;

    open spec fn deep_view(&self) -> SearchOutputV {
        SearchOutputV { definitions: self.definitions.deep_view(), total: self.total }
    }
}

/// An optional text field as it is fed to the model: markup stripped, or
/// `null` when absent.
pub open spec fn stripped_opt_json(o: Option<Seq<char>>) -> Seq<char> {
    match o {
        Some(s) => json_string(spec_strip_mathjax(s)),
        None => seq!['n', 'u', 'l', 'l'],
    }
}

/// A rendered numeric field as it is fed to the model: passed through when
/// it frames as a JSON number, `null` otherwise.
pub open spec fn number_json(s: Seq<char>) -> Seq<char> {
    if is_json_number(s) {
        s
    } else {
        seq!['n', 'u', 'l', 'l']
    }
}

/// The compact JSON summary of one definition: word, markup-stripped
/// definition and notes, language, score, similarity, and markup-stripped
/// category tags.
pub open spec fn summary_json(d: DefinitionDetailV) -> Seq<char> {
    "{\"definition\":"@ + json_string(spec_strip_mathjax(d.definition)) + ",\"jargon\":"@
        + stripped_opt_json(d.jargon) + ",\"lang\":"@ + json_string(d.langrealname)
        + ",\"notes\":"@ + stripped_opt_json(d.notes) + ",\"score\":"@ + number_json(d.score_text)
        + ",\"selmaho\":"@ + stripped_opt_json(d.selmaho) + ",\"similarity\":"@ + number_json(
        d.similarity_text,
    ) + ",\"valsi\":"@ + json_string(d.valsiword) + "}"@
}

fn push_stripped_opt(out: &mut Vec<char>, o: &Option<String>)
    ensures
        final(out)@ == old(out)@ + stripped_opt_json(match o {
            Some(s) => Some(s@),
            None => None,
        }),
{
    match o {
        Some(s) => {
            let stripped = crate::text::strip_mathjax_for_llm(s.as_str());
            crate::jsonout::push_json_str(out, stripped.as_str());
        },
        None => {
            crate::chars::push_chars(out, "null");
            proof {
                reveal_strlit("null");
                assert(old(out)@ + "null"@ =~= old(out)@ + seq!['n', 'u', 'l', 'l']);
            }
        },
    }
}

fn push_summary(out: &mut Vec<char>, d: &DefinitionDetail)
    ensures
        final(out)@ == old(out)@ + summary_json(d.deep_view()),
{
    let ghost mut acc: Seq<char> = Seq::empty();
    crate::chars::push_chars(out, "{\"definition\":");
    proof {
        acc = "{\"definition\":"@;
    }
    let stripped = crate::text::strip_mathjax_for_llm(d.definition.as_str());
    crate::jsonout::push_json_str(out, stripped.as_str());
    proof {
        crate::chars::seq_assoc(old(out)@, acc, json_string(stripped@));
        acc = acc + json_string(stripped@);
        assert(out@ == old(out)@ + acc);
    }
    crate::chars::push_chars(out, ",\"jargon\":");
    proof {
        crate::chars::seq_assoc(old(out)@, acc, ",\"jargon\":"@);
        acc = acc + ",\"jargon\":"@;
        assert(out@ == old(out)@ + acc);
    }
    push_stripped_opt(out, &d.jargon);
    proof {
        crate::chars::seq_assoc(old(out)@, acc, stripped_opt_json(d.deep_view().jargon));
        acc = acc + stripped_opt_json(d.deep_view().jargon);
        assert(out@ == old(out)@ + acc);
    }
    crate::chars::push_chars(out, ",\"lang\":");
    proof {
        crate::chars::seq_assoc(old(out)@, acc, ",\"lang\":"@);
        acc = acc + ",\"lang\":"@;
        assert(out@ == old(out)@ + acc);
    }
    crate::jsonout::push_json_str(out, d.langrealname.as_str());
    proof {
        crate::chars::seq_assoc(old(out)@, acc, json_string(d.langrealname@));
        acc = acc + json_string(d.langrealname@);
        assert(out@ == old(out)@ + acc);
    }
    crate::chars::push_chars(out, ",\"notes\":");
    proof {
        crate::chars::seq_assoc(old(out)@, acc, ",\"notes\":"@);
        acc = acc + ",\"notes\":"@;
        assert(out@ == old(out)@ + acc);
    }
    push_stripped_opt(out, &d.notes);
    proof {
        crate::chars::seq_assoc(old(out)@, acc, stripped_opt_json(d.deep_view().notes));
        acc = acc + stripped_opt_json(d.deep_view().notes);
        assert(out@ == old(out)@ + acc);
    }
    crate::chars::push_chars(out, ",\"score\":");
    proof {
        crate::chars::seq_assoc(old(out)@, acc, ",\"score\":"@);
        acc = acc + ",\"score\":"@;
        assert(out@ == old(out)@ + acc);
    }
    crate::jsonout::push_json_number_or_null(out, d.score_text.as_str());
    proof {
        crate::chars::seq_assoc(old(out)@, acc, number_json(d.score_text@));
        acc = acc + number_json(d.score_text@);
        assert(out@ == old(out)@ + acc);
    }
    crate::chars::push_chars(out, ",\"selmaho\":");
    proof {
        crate::chars::seq_assoc(old(out)@, acc, ",\"selmaho\":"@);
        acc = acc + ",\"selmaho\":"@;
        assert(out@ == old(out)@ + acc);
    }
    push_stripped_opt(out, &d.selmaho);
    proof {
        crate::chars::seq_assoc(old(out)@, acc, stripped_opt_json(d.deep_view().selmaho));
        acc = acc + stripped_opt_json(d.deep_view().selmaho);
        assert(out@ == old(out)@ + acc);
    }
    crate::chars::push_chars(out, ",\"similarity\":");
    proof {
        crate::chars::seq_assoc(old(out)@, acc, ",\"similarity\":"@);
        acc = acc + ",\"similarity\":"@;
        assert(out@ == old(out)@ + acc);
    }
    crate::jsonout::push_json_number_or_null(out, d.similarity_text.as_str());
    proof {
        crate::chars::seq_assoc(old(out)@, acc, number_json(d.similarity_text@));
        acc = acc + number_json(d.similarity_text@);
        assert(out@ == old(out)@ + acc);
    }
    crate::chars::push_chars(out, ",\"valsi\":");
    proof {
        crate::chars::seq_assoc(old(out)@, acc, ",\"valsi\":"@);
        acc = acc + ",\"valsi\":"@;
        assert(out@ == old(out)@ + acc);
    }
    crate::jsonout::push_json_str(out, d.valsiword.as_str());
    proof {
        crate::chars::seq_assoc(old(out)@, acc, json_string(d.valsiword@));
        acc = acc + json_string(d.valsiword@);
        assert(out@ == old(out)@ + acc);
    }
    crate::chars::push_chars(out, "}");
    proof {
        crate::chars::seq_assoc(old(out)@, acc, "}"@);
        acc = acc + "}"@;
        assert(out@ == old(out)@ + acc);
        assert(acc == summary_json(d.deep_view()));
    }
}

/// The compact JSON summary of one definition.
pub fn summarise_definition(d: &DefinitionDetail) -> (r: String)
    ensures
        r@ == summary_json(d.deep_view()),
{
    let mut out: Vec<char> = Vec::new();
    push_summary(&mut out, d);
    proof {
        assert(out@ =~= summary_json(d.deep_view()));
    }
    crate::chars::chars_to_string(&out)
}

/// The summaries of all results, joined with commas, in result order.
pub open spec fn results_json(rs: Seq<DefinitionDetailV>) -> Seq<char>
    decreases rs.len(),
{
    if rs.len() == 0 {
        Seq::empty()
    } else if rs.len() == 1 {
        summary_json(rs[0])
    } else {
        results_json(rs.drop_last()) + ","@ + summary_json(rs.last())
    }
}

/// The tool-result payload: the summaries under `results` and the total row
/// count under `total`.
pub open spec fn payload_json(rs: Seq<DefinitionDetailV>, total: i64) -> Seq<char> {
    "{\"results\":["@ + results_json(rs) + "],\"total\":"@ + dec_int(total as int) + "}"@
}

proof fn lemma_results_json_snoc(rs: Seq<DefinitionDetailV>, i: int)
    requires
        0 <= i < rs.len(),
    ensures
        results_json(rs.take(i + 1)) == results_json(rs.take(i)) + (if i == 0 {
            Seq::<char>::empty()
        } else {
            ","@
        }) + summary_json(rs[i]),
{
    let t = rs.take(i + 1);
    assert(t.drop_last() =~= rs.take(i));
    assert(t.last() == rs[i]);
    if i == 0 {
        assert(results_json(rs.take(1)) == summary_json(rs[0]));
        assert(results_json(rs.take(0)) =~= Seq::<char>::empty());
        assert(Seq::<char>::empty() + Seq::<char>::empty() + summary_json(rs[0])
            =~= summary_json(rs[0]));
    }
}

/// Builds the tool-result payload for the model: every summary in result
/// order and the total row count.
#[verifier::loop_isolation(false)]
pub fn tool_payload(results: &SearchOutput) -> (r: String)
    ensures
        r@ == payload_json(results.deep_view().definitions, results.total),
{
    let mut out: Vec<char> = Vec::new();
    crate::chars::push_chars(&mut out, "{\"results\":[");
    let ghost mid0 = out@;
    let ghost rs = results.definitions.deep_view();
    let n = results.definitions.len();
    let mut i: usize = 0;
    while i < n
        invariant
            n == rs.len(),
            i <= n,
            rs == results.definitions.deep_view(),
            out@ == mid0 + results_json(rs.take(i as int)),
        decreases n - i,
    {
        if i > 0 {
            crate::chars::push_chars(&mut out, ",");
        }
        push_summary(&mut out, &results.definitions[i]);
        i = i + 1;
        proof {
            lemma_results_json_snoc(rs, i - 1);
            if i - 1 == 0 {
                assert(out@ =~= mid0 + results_json(rs.take(i as int)));
            } else {
                assert(out@ =~= mid0 + results_json(rs.take(i as int)));
            }
        }
    }
    crate::chars::push_chars(&mut out, "],\"total\":");
    crate::numfmt::push_dec_i64(&mut out, results.total);
    crate::chars::push_chars(&mut out, "}");
    proof {
        assert(rs.take(n as int) =~= rs);
        assert(out@ =~= payload_json(results.deep_view().definitions, results.total));
    }
    crate::chars::chars_to_string(&out)
}

} // verus!
