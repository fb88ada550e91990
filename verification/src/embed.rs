//! The embedding engine's verified front half: tokenizer invocation, batch
//! shape checking, and the flat model inputs (token ids, attention mask,
//! per-row mask sums) for one forward pass.  The forward pass itself and the
//! mask-weighted pooling run over floating-point tensors at the boundary;
//! what this module guarantees is that the tensors are laid out exactly as
//! the encodings dictate.
use vstd::prelude::*;
use crate::error::{AppError, AppErrorV};

verus! {

/// Output embedding dimension of the loaded model.
pub const EMBEDDING_DIM: usize = 768;

/// The model's maximum context window, in tokens.
pub const MAX_LENGTH: usize = 2048;

#[verifier::external_type_specification]
#[verifier::external_body]
pub struct ExTokenizer(tokenizers::Tokenizer);

/// One tokenized text: token ids and the attention mask, index for index.
#[derive(Debug, Clone, PartialEq, Eq)]
pub struct EncodedItem {
    pub ids: Vec<u32>,
    pub mask: Vec<u32>,
}

pub struct EncodedItemV {
    pub ids: Seq<u32>,
    pub mask: Seq<u32>,
}

impl DeepView for EncodedItem {
    type V = EncodedItemV;

    open spec fn deep_view(&self) -> EncodedItemV {
        EncodedItemV { ids: self.ids@, mask: self.mask@ }
    }
}

/// Relies on tokenizers::TokenizerImpl::encode_batch: it encodes each input
/// in turn and pads afterwards, so a success holds one encoding per input,
/// in input order.
#[verifier::external_body]
fn encode_texts(tok: &tokenizers::Tokenizer, texts: &Vec<String>) -> (r: Result<
    Vec<EncodedItem>,
    String,
>)
    ensures
        match r {
            Ok(v) => v@.len() == texts@.len(),
            Err(_) => true,
        },
{
    match tok.encode_batch(texts.clone(), true) {
        Ok(encs) => Ok(
            encs.iter().map(
                |e| EncodedItem {
                    ids: e.get_ids().to_vec(),
                    mask: e.get_attention_mask().to_vec(),
                },
            ).collect(),
        ),
        Err(e) => Err(e.to_string()),
    }
}

/// The sum of a row of attention-mask values.
pub open spec fn sum_u32(s: Seq<u32>) -> int
    decreases s.len(),
{
    if s.len() == 0 {
        0
    } else {
        sum_u32(s.drop_last()) + s.last()
    }
}

/// One row's token ids, widened for the model.
pub open spec fn row_ids_i64(e: EncodedItemV) -> Seq<i64> {
    e.ids.map_values(|x: u32| x as i64)
}

/// One row's attention mask, widened for the model.
pub open spec fn row_mask_i64(e: EncodedItemV) -> Seq<i64> {
    e.mask.map_values(|x: u32| x as i64)
}

/// All rows' token ids, row after row.
pub open spec fn flat_ids(encs: Seq<EncodedItemV>) -> Seq<i64>
    decreases encs.len(),
{
    if encs.len() == 0 {
        Seq::empty()
    } else {
        flat_ids(encs.drop_last()) + row_ids_i64(encs.last())
    }
}

/// All rows' attention masks, row after row.
pub open spec fn flat_mask(encs: Seq<EncodedItemV>) -> Seq<i64>
    decreases encs.len(),
{
    if encs.len() == 0 {
        Seq::empty()
    } else {
        flat_mask(encs.drop_last()) + row_mask_i64(encs.last())
    }
}

/// Every row holds exactly `seq_len` ids and mask entries.
pub open spec fn rows_uniform(encs: Seq<EncodedItemV>, seq_len: int) -> bool {
    forall|i: int|
        0 <= i < encs.len() ==> (#[trigger] encs[i]).ids.len() == seq_len && encs[i].mask.len()
            == seq_len
}

/// Every attention-mask entry is 0 or 1.
pub open spec fn masks_binary(encs: Seq<EncodedItemV>) -> bool {
    forall|i: int, j: int|
        0 <= i < encs.len() && 0 <= j < encs[i].mask.len() ==> (#[trigger] encs[i].mask[j]) <= 1
}

/// The flat inputs of one forward pass.
#[derive(Debug, Clone, PartialEq, Eq)]
pub struct ModelInputs {
    /// The encodings the inputs were built from.
    pub encodings: Vec<EncodedItem>,
    /// The common row length.
    pub seq_len: usize,
    /// Token ids, row after row: `encodings.len() * seq_len` entries.
    pub ids_flat: Vec<i64>,
    /// Attention mask, row after row, same layout.
    pub mask_flat: Vec<i64>,
    /// The sum of each row's attention mask, for mean pooling.
    pub mask_sums: Vec<u64>,
}

pub struct ModelInputsV {
    pub encodings: Seq<EncodedItemV>,
    pub seq_len: int,
    pub ids_flat: Seq<i64>,
    pub mask_flat: Seq<i64>,
    pub mask_sums: Seq<u64>,
}

impl DeepView for ModelInputs {
    type V = ModelInputsV;

    open spec fn deep_view(&self) -> ModelInputsV {
        ModelInputsV {
            encodings: self.encodings.deep_view(),
            seq_len: self.seq_len as int,
            ids_flat: self.ids_flat@,
            mask_flat: self.mask_flat@,
            mask_sums: self.mask_sums@,
        }
    }
}

/// Internal consistency of flat model inputs.
pub open spec fn inputs_wf(mi: ModelInputsV) -> bool {
    &&& mi.encodings.len() > 0
    &&& mi.seq_len == mi.encodings[0].ids.len()
    &&& rows_uniform(mi.encodings, mi.seq_len)
    &&& masks_binary(mi.encodings)
    &&& mi.ids_flat == flat_ids(mi.encodings)
    &&& mi.mask_flat == flat_mask(mi.encodings)
    &&& mi.mask_sums.len() == mi.encodings.len()
    &&& forall|i: int|
        0 <= i < mi.encodings.len() ==> (#[trigger] mi.mask_sums[i]) as int == sum_u32(
            mi.encodings[i].mask,
        )
}

/// Error text for an empty batch.
pub open spec fn empty_batch_error() -> AppErrorV {
    AppErrorV::Internal("Tokenise produced no encodings"@)
}

/// Error text for rows of differing length.
pub open spec fn shape_error() -> AppErrorV {
    AppErrorV::Internal("Shape error: tokenizer rows differ in length"@)
}

/// Error text for an attention-mask entry other than 0 or 1.
pub open spec fn mask_error() -> AppErrorV {
    AppErrorV::Internal("Tokenise failed: unexpected attention mask value"@)
}

proof fn lemma_flat_ids_snoc(encs: Seq<EncodedItemV>, i: int)
    requires
        0 <= i < encs.len(),
    ensures
        flat_ids(encs.take(i + 1)) == flat_ids(encs.take(i)) + row_ids_i64(encs[i]),
        flat_mask(encs.take(i + 1)) == flat_mask(encs.take(i)) + row_mask_i64(encs[i]),
{
    let t = encs.take(i + 1);
    assert(t.drop_last() =~= encs.take(i));
    assert(t.last() == encs[i]);
}

proof fn lemma_sum_u32_snoc(s: Seq<u32>, j: int)
    requires
        0 <= j < s.len(),
    ensures
        sum_u32(s.take(j + 1)) == sum_u32(s.take(j)) + s[j],
{
    let t = s.take(j + 1);
    assert(t.drop_last() =~= s.take(j));
    assert(t.last() == s[j]);
}

/// Lays the encodings out flat for one forward pass.  Fails when the batch
/// is empty, when the rows are not of one length, or when a mask entry is
/// not 0 or 1; otherwise the flat inputs mirror the encodings exactly.
#[verifier::loop_isolation(false)]
pub fn build_model_inputs(encodings: Vec<EncodedItem>) -> (r: Result<ModelInputs, AppError>)
    ensures
        match r {
            Ok(mi) => {
                &&& mi.deep_view().encodings == encodings.deep_view()
                &&& inputs_wf(mi.deep_view())
                &&& encodings.deep_view().len() > 0
                &&& rows_uniform(
                    encodings.deep_view(),
                    encodings.deep_view()[0].ids.len() as int,
                )
                &&& masks_binary(encodings.deep_view())
            },
            Err(e) => {
                if encodings.deep_view().len() == 0 {
                    e.deep_view() == empty_batch_error()
                } else if !rows_uniform(
                    encodings.deep_view(),
                    encodings.deep_view()[0].ids.len() as int,
                ) {
                    e.deep_view() == shape_error()
                } else {
                    e.deep_view() == mask_error() && !masks_binary(encodings.deep_view())
                }
            },
        },
        r is Ok <==> {
            &&& encodings.deep_view().len() > 0
            &&& rows_uniform(encodings.deep_view(), encodings.deep_view()[0].ids.len() as int)
            &&& masks_binary(encodings.deep_view())
        },
{
    let ghost encs = encodings.deep_view();
    let batch = encodings.len();
    if batch == 0 {
        return Err(AppError::Internal(String::from_str("Tokenise produced no encodings")));
    }
    let seq_len = encodings[0].ids.len();
    let mut i: usize = 0;
    while i < batch
        invariant
            i <= batch,
            forall|a: int|
                0 <= a < i ==> (#[trigger] encs[a]).ids.len() == seq_len && encs[a].mask.len()
                    == seq_len,
        decreases batch - i,
    {
        if encodings[i].ids.len() != seq_len || encodings[i].mask.len() != seq_len {
            proof {
                assert(encs[i as int].ids.len() != seq_len || encs[i as int].mask.len()
                    != seq_len);
                assert(!rows_uniform(encs, seq_len as int));
            }
            return Err(
                AppError::Internal(String::from_str("Shape error: tokenizer rows differ in length")),
            );
        }
        i = i + 1;
    }
    let mut ids_flat: Vec<i64> = Vec::new();
    let mut mask_flat: Vec<i64> = Vec::new();
    let mut mask_sums: Vec<u64> = Vec::new();
    let mut a: usize = 0;
    while a < batch
        invariant
            a <= batch,
            rows_uniform(encs, seq_len as int),
            ids_flat@ == flat_ids(encs.take(a as int)),
            mask_flat@ == flat_mask(encs.take(a as int)),
            mask_sums@.len() == a,
            forall|x: int|
                0 <= x < a ==> (#[trigger] mask_sums@[x]) as int == sum_u32(encs[x].mask),
            forall|x: int, y: int|
                0 <= x < a && 0 <= y < encs[x].mask.len() ==> (#[trigger] encs[x].mask[y]) <= 1,
        decreases batch - a,
    {
        let row = &encodings[a];
        let mut sum: u64 = 0;
        let mut j: usize = 0;
        let ghost ids0 = ids_flat@;
        let ghost mask0 = mask_flat@;
        while j < seq_len
            invariant
                j <= seq_len,
                row == &encodings[a as int],
                a < batch,
                rows_uniform(encs, seq_len as int),
                ids_flat@ == ids0 + encs[a as int].ids.take(j as int).map_values(
                    |x: u32| x as i64,
                ),
                mask_flat@ == mask0 + encs[a as int].mask.take(j as int).map_values(
                    |x: u32| x as i64,
                ),
                sum as int == sum_u32(encs[a as int].mask.take(j as int)),
                sum <= j,
                forall|y: int| 0 <= y < j ==> (#[trigger] encs[a as int].mask[y]) <= 1,
            decreases seq_len - j,
        {
            let id = row.ids[j];
            let m = row.mask[j];
            if m > 1 {
                proof {
                    assert(encs[a as int].mask[j as int] > 1);
                    assert(!masks_binary(encs));
                }
                return Err(
                    AppError::Internal(
                        String::from_str("Tokenise failed: unexpected attention mask value"),
                    ),
                );
            }
            ids_flat.push(id as i64);
            mask_flat.push(m as i64);
            sum = sum + (m as u64);
            j = j + 1;
            proof {
                assert(encs[a as int].ids.take(j as int).map_values(|x: u32| x as i64)
                    =~= encs[a as int].ids.take(j - 1).map_values(|x: u32| x as i64).push(
                    encs[a as int].ids[j - 1] as i64,
                ));
                assert(encs[a as int].mask.take(j as int).map_values(|x: u32| x as i64)
                    =~= encs[a as int].mask.take(j - 1).map_values(|x: u32| x as i64).push(
                    encs[a as int].mask[j - 1] as i64,
                ));
                assert(ids0 + encs[a as int].ids.take(j - 1).map_values(|x: u32| x as i64).push(
                    encs[a as int].ids[j - 1] as i64,
                ) =~= (ids0 + encs[a as int].ids.take(j - 1).map_values(|x: u32| x as i64)).push(
                    encs[a as int].ids[j - 1] as i64,
                ));
                assert(mask0 + encs[a as int].mask.take(j - 1).map_values(
                    |x: u32| x as i64,
                ).push(encs[a as int].mask[j - 1] as i64) =~= (mask0 + encs[a as int].mask.take(
                    j - 1,
                ).map_values(|x: u32| x as i64)).push(encs[a as int].mask[j - 1] as i64));
                lemma_sum_u32_snoc(encs[a as int].mask, j - 1);
            }
        }
        mask_sums.push(sum);
        a = a + 1;
        proof {
            lemma_flat_ids_snoc(encs, a - 1);
            assert(encs[a - 1].ids.take(seq_len as int) =~= encs[a - 1].ids);
            assert(encs[a - 1].mask.take(seq_len as int) =~= encs[a - 1].mask);
            assert(ids_flat@ =~= flat_ids(encs.take(a as int)));
            assert(mask_flat@ =~= flat_mask(encs.take(a as int)));
        }
    }
    proof {
        assert(encs.take(batch as int) =~= encs);
    }
    Ok(ModelInputs { encodings, seq_len, ids_flat, mask_flat, mask_sums })
}

/// Tokenizes a batch and lays it out for one forward pass.  A tokenizer
/// failure surfaces as the per-call inference error; nothing is retried.
pub fn prepare_batch(tok: &tokenizers::Tokenizer, texts: &Vec<String>) -> (r: Result<
    ModelInputs,
    AppError,
>)
    ensures
        match r {
            Ok(mi) => inputs_wf(mi.deep_view()) && mi.deep_view().encodings.len()
                == texts@.len(),
            Err(e) => e.deep_view() matches AppErrorV::Internal(_),
        },
{
    match encode_texts(tok, texts) {
        Ok(encodings) => build_model_inputs(encodings),
        Err(e) => {
            let mut out: Vec<char> = Vec::new();
            crate::chars::push_chars(&mut out, "Tokenise failed: ");
            crate::chars::push_chars(&mut out, e.as_str());
            Err(AppError::Internal(crate::chars::chars_to_string(&out)))
        },
    }
}

/// The effective maximum sequence length: the model's own limit, capped at
/// the context window.
pub open spec fn effective_max_length(model_max_length: Option<u64>) -> int {
    let m = match model_max_length {
        Some(v) => v as int,
        None => MAX_LENGTH as int,
    };
    if m < MAX_LENGTH as int {
        m
    } else {
        MAX_LENGTH as int
    }
}

/// Padding and truncation settings resolved from the model's configuration
/// files.
#[derive(Debug, Clone, PartialEq, Eq)]
pub struct TokenizerSetup {
    pub max_length: usize,
    pub pad_id: u32,
    pub pad_token: String,
}

/// Resolves padding and truncation settings: the max length is the model's
/// own limit capped at the context window, the pad id defaults to 0 (kept
/// modulo 2^32 as a 32-bit id), and the pad token defaults to `<pad>`.
pub fn resolve_tokenizer_limits(
    model_max_length: Option<u64>,
    pad_token_id: Option<u64>,
    pad_token: Option<String>,
) -> (r: TokenizerSetup)
    ensures
        r.max_length as int == effective_max_length(model_max_length),
        r.pad_id as int == (match pad_token_id {
            Some(v) => v as int % 0x1_0000_0000,
            None => 0,
        }),
        r.pad_token@ == (match pad_token {
            Some(t) => t@,
            None => "<pad>"@,
        }),
{
    let max_length: usize = match model_max_length {
        Some(v) => if v < MAX_LENGTH as u64 {
            v as usize
        } else {
            MAX_LENGTH
        },
        None => MAX_LENGTH,
    };
    let pad_id: u32 = match pad_token_id {
        Some(v) => (v % 0x1_0000_0000) as u32,
        None => 0,
    };
    let pad_token: String = match pad_token {
        Some(t) => t,
        None => String::from_str("<pad>"),
    };
    TokenizerSetup { max_length, pad_id, pad_token }
}

} // verus!
