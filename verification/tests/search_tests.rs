use lexichat::search::{
    clamp_limit, search_params, summarise_definition, tool_payload, DefinitionDetail,
    SearchOutput, ToolArgs,
};

#[test]
fn limit_zero_clamps_to_one() {
    assert_eq!(clamp_limit(Some(0)), 1);
}

#[test]
fn limit_five_hundred_clamps_to_fifty() {
    assert_eq!(clamp_limit(Some(500)), 50);
}

#[test]
fn absent_limit_defaults_to_ten() {
    assert_eq!(clamp_limit(None), 10);
}

#[test]
fn in_range_limit_is_kept() {
    assert_eq!(clamp_limit(Some(1)), 1);
    assert_eq!(clamp_limit(Some(37)), 37);
    assert_eq!(clamp_limit(Some(50)), 50);
}

#[test]
fn search_params_carry_query_and_filters() {
    let params = search_params(ToolArgs {
        query: "feline".to_string(),
        limit: Some(500),
        languages: Some(vec![2, 3]),
        source_langid: Some(1),
    });
    assert_eq!(params.search_term, "feline");
    assert_eq!(params.per_page, 50);
    assert_eq!(params.page, 1);
    assert_eq!(params.languages, Some(vec![2, 3]));
    assert_eq!(params.source_langid, Some(1));
    assert_eq!(params.selmaho, None);
    assert_eq!(params.username, None);
    assert_eq!(params.word_type, None);
}

fn sample_row() -> DefinitionDetail {
    DefinitionDetail {
        valsiword: "mlatu".to_string(),
        definition: "$x_1$ is a cat".to_string(),
        notes: Some("see also $$gerku$$".to_string()),
        langrealname: "English".to_string(),
        score_text: "1.5".to_string(),
        similarity_text: "0.93".to_string(),
        selmaho: None,
        jargon: None,
    }
}

#[test]
fn summary_strips_markup_and_orders_keys() {
    let s = summarise_definition(&sample_row());
    assert_eq!(
        s,
        "{\"definition\":\"x_1 is a cat\",\"jargon\":null,\"lang\":\"English\",\
         \"notes\":\"see also gerku\",\"score\":1.5,\"selmaho\":null,\
         \"similarity\":0.93,\"valsi\":\"mlatu\"}"
    );
}

#[test]
fn summary_escapes_json_text() {
    let mut row = sample_row();
    row.definition = "a \"quoted\"\nline".to_string();
    row.notes = None;
    let s = summarise_definition(&row);
    assert!(s.contains("\"definition\":\"a \\\"quoted\\\"\\nline\""));
}

#[test]
fn control_characters_are_escaped() {
    let mut row = sample_row();
    row.definition = "a\u{1}b\tc".to_string();
    row.notes = None;
    let s = summarise_definition(&row);
    assert!(s.contains("\"definition\":\"a\\u0001b\\tc\""));
}

#[test]
fn non_numeric_score_becomes_null() {
    let mut row = sample_row();
    row.score_text = "n/a".to_string();
    let s = summarise_definition(&row);
    assert!(s.contains("\"score\":null"));
}

#[test]
fn payload_joins_summaries_and_total() {
    let out = SearchOutput { definitions: vec![sample_row(), sample_row()], total: 41 };
    let p = tool_payload(&out);
    assert!(p.starts_with("{\"results\":[{\"definition\":"));
    assert!(p.ends_with("],\"total\":41}"));
    assert_eq!(p.matches("\"valsi\":\"mlatu\"").count(), 2);
}

#[test]
fn payload_of_no_results_is_empty_array() {
    let out = SearchOutput { definitions: vec![], total: 0 };
    assert_eq!(tool_payload(&out), "{\"results\":[],\"total\":0}");
}
