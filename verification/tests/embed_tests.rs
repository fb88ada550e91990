use lexichat::embed::{
    build_model_inputs, prepare_batch, resolve_tokenizer_limits, EncodedItem, EMBEDDING_DIM,
    MAX_LENGTH,
};
use lexichat::error::AppError;

fn item(ids: Vec<u32>, mask: Vec<u32>) -> EncodedItem {
    EncodedItem { ids, mask }
}

#[test]
fn model_constants() {
    assert_eq!(EMBEDDING_DIM, 768);
    assert_eq!(MAX_LENGTH, 2048);
}

#[test]
fn inputs_are_laid_out_row_after_row() {
    let encodings = vec![item(vec![1, 2], vec![1, 1]), item(vec![3, 4], vec![1, 0])];
    let mi = build_model_inputs(encodings).unwrap();
    assert_eq!(mi.seq_len, 2);
    assert_eq!(mi.ids_flat, vec![1i64, 2, 3, 4]);
    assert_eq!(mi.mask_flat, vec![1i64, 1, 1, 0]);
    assert_eq!(mi.mask_sums, vec![2u64, 1]);
}

#[test]
fn an_empty_batch_is_refused() {
    match build_model_inputs(vec![]) {
        Err(AppError::Internal(m)) => assert_eq!(m, "Tokenise produced no encodings"),
        other => panic!("expected the empty-batch error, got {:?}", other),
    }
}

#[test]
fn ragged_rows_are_refused() {
    let encodings = vec![item(vec![1, 2], vec![1, 1]), item(vec![3], vec![1])];
    match build_model_inputs(encodings) {
        Err(AppError::Internal(m)) => {
            assert_eq!(m, "Shape error: tokenizer rows differ in length");
        }
        other => panic!("expected the shape error, got {:?}", other),
    }
}

#[test]
fn mismatched_mask_length_is_refused() {
    let encodings = vec![item(vec![1, 2], vec![1])];
    match build_model_inputs(encodings) {
        Err(AppError::Internal(m)) => {
            assert_eq!(m, "Shape error: tokenizer rows differ in length");
        }
        other => panic!("expected the shape error, got {:?}", other),
    }
}

#[test]
fn non_binary_mask_is_refused() {
    let encodings = vec![item(vec![1, 2], vec![1, 2])];
    match build_model_inputs(encodings) {
        Err(AppError::Internal(m)) => {
            assert_eq!(m, "Tokenise failed: unexpected attention mask value");
        }
        other => panic!("expected the mask error, got {:?}", other),
    }
}

#[test]
fn tokenizer_limits_resolve_with_defaults() {
    let s = resolve_tokenizer_limits(None, None, None);
    assert_eq!(s.max_length, 2048);
    assert_eq!(s.pad_id, 0);
    assert_eq!(s.pad_token, "<pad>");
}

#[test]
fn tokenizer_limits_cap_at_the_context_window() {
    let s = resolve_tokenizer_limits(Some(1_000_000), Some(3), Some("[PAD]".to_string()));
    assert_eq!(s.max_length, 2048);
    assert_eq!(s.pad_id, 3);
    assert_eq!(s.pad_token, "[PAD]");
    let s = resolve_tokenizer_limits(Some(128), None, None);
    assert_eq!(s.max_length, 128);
}

#[test]
fn a_real_tokenizer_batch_is_padded_to_the_longest_row() {
    let spec = "{\"version\":\"1.0\",\"truncation\":null,\"padding\":null,\
        \"added_tokens\":[],\"normalizer\":null,\
        \"pre_tokenizer\":{\"type\":\"Whitespace\"},\
        \"model\":{\"type\":\"WordLevel\",\
        \"vocab\":{\"hello\":0,\"world\":1,\"[UNK]\":2,\"[PAD]\":3},\
        \"unk_token\":\"[UNK]\"},\
        \"post_processor\":null,\"decoder\":null}";
    let mut tok = tokenizers::Tokenizer::from_bytes(spec.as_bytes()).unwrap();
    tok.with_padding(Some(tokenizers::PaddingParams {
        strategy: tokenizers::PaddingStrategy::BatchLongest,
        pad_id: 3,
        pad_token: "[PAD]".to_string(),
        ..Default::default()
    }));
    let texts = vec!["hello world".to_string(), "hello".to_string()];
    let mi = prepare_batch(&tok, &texts).unwrap();
    assert_eq!(mi.encodings.len(), 2);
    assert_eq!(mi.seq_len, 2);
    assert_eq!(mi.ids_flat, vec![0i64, 1, 0, 3]);
    assert_eq!(mi.mask_flat, vec![1i64, 1, 1, 0]);
    assert_eq!(mi.mask_sums, vec![2u64, 1]);
}
