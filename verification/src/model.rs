use vstd::prelude::*;

verus! {

// ---------------------------------------------------------------------------
// The tokenizer (the `tokenizers` crate)
// ---------------------------------------------------------------------------

#[verifier::external_type_specification]
#[verifier::external_body]
pub struct ExTokenizer(tokenizers::Tokenizer);

/// Calls `tokenizers::Tokenizer::encode` (with special tokens) and copies out the token ids
/// and the attention mask, or the error's message. What it returns depends on the tokenizer
/// that was loaded from disk, so nothing is stated of it.
#[verifier::external_body]
pub(crate) fn encode(tokenizer: &tokenizers::Tokenizer, text: &str) -> (res: Result<(Vec<u32>, Vec<u32>), String>) {
    match tokenizer.encode(text, true) {
        Ok(e) => Ok((e.get_ids().to_vec(), e.get_attention_mask().to_vec())),
        Err(err) => Err(format!("{}", err)),
    }
}

// ---------------------------------------------------------------------------
// The model's input
// ---------------------------------------------------------------------------

/// The two input rows of the language model: token ids and attention mask, both of the same
/// length, widened to `i64`.
pub struct ModelInput {
    pub input_ids: Vec<i64>,
    pub attention_mask: Vec<i64>,
}

/// Why a message could not be turned into model input.
#[derive(Debug)]
pub enum ModelInputError {
    /// The tokenizer failed, with its message.
    Tokenization(String),
    /// The attention mask does not have one entry per token id.
    MaskLength,
}

/// The values of `v`, widened to `i64`.
pub open spec fn widened(v: Seq<u32>) -> Seq<i64> {
    v.map_values(|x: u32| x as i64)
}

fn widen(v: &Vec<u32>) -> (res: Vec<i64>)
    ensures
        res@ == widened(v@),
{
    let mut out: Vec<i64> = Vec::new();
    let mut i: usize = 0;
    while i < v.len()
        invariant
            i <= v.len(),
            out@ == widened(v@.take(i as int)),
        decreases v.len() - i,
    {
        out.push(v[i] as i64);
        assert(widened(v@.take(i + 1)) =~= widened(v@.take(i as int)).push(v@[i as int] as i64));
        i = i + 1;
    }
    assert(v@.take(v.len() as int) =~= v@);
    out
}

/// Shapes token ids and an attention mask into one row each: fails exactly when the mask
/// does not have one entry per id (the model takes a one-by-n matrix of each).
pub fn model_input(ids: &Vec<u32>, mask: &Vec<u32>) -> (res: Result<ModelInput, ModelInputError>)
    ensures
        res is Ok == (ids@.len() == mask@.len()),
        res matches Ok(input) ==> input.input_ids@ == widened(ids@) && input.attention_mask@
            == widened(mask@),
        res matches Err(e) ==> e is MaskLength,
{
    if ids.len() != mask.len() {
        return Err(ModelInputError::MaskLength);
    }
    Ok(ModelInput { input_ids: widen(ids), attention_mask: widen(mask) })
}

/// Whether `input` is what `model_input` makes of some token ids and an attention mask of
/// the same length.
pub open spec fn shaped_from_tokens(input: ModelInput) -> bool {
    exists|ids: Seq<u32>, mask: Seq<u32>|
        #![trigger widened(ids), widened(mask)]
        ids.len() == mask.len() && input.input_ids@ == widened(ids) && input.attention_mask@
            == widened(mask)
}

/// Tokenizes a message for the model. Whether the tokenizer succeeds, and which ids it
/// gives, depends on the tokenizer loaded from disk; a tokenizer failure comes back with its
/// message, and otherwise the result is what `model_input` makes of the tokenizer's ids and
/// mask.
pub fn encode_message(tokenizer: &tokenizers::Tokenizer, text: &str) -> (res: Result<ModelInput, ModelInputError>)
    ensures
        res matches Ok(input) ==> input.input_ids@.len() == input.attention_mask@.len(),
        res matches Ok(input) ==> shaped_from_tokens(input),
{
    match encode(tokenizer, text) {
        Ok((ids, mask)) => {
            let r = model_input(&ids, &mask);
            proof {
                if r is Ok {
                    assert(widened(ids@) == r->Ok_0.input_ids@);
                    assert(widened(mask@) == r->Ok_0.attention_mask@);
                }
            }
            r
        },
        Err(message) => Err(ModelInputError::Tokenization(message)),
    }
}

} // verus!
