//! The tokenization library that does the actual work: its types, and the
//! calls that build a tokenizer and encode text with it.

use vstd::prelude::*;

verus! {

/// A loaded tokenizer model; opaque here.
#[verifier::external_type_specification]
#[verifier::external_body]
pub struct ExTokenizer(tokenizers::Tokenizer);

/// The result of encoding one text; opaque here.
#[verifier::external_type_specification]
#[verifier::external_body]
pub struct ExEncoding(tokenizers::Encoding);

/// Whether these bytes deserialize into a tokenizer model.
pub uninterp spec fn model_accepted(bytes: Seq<u8>) -> bool;

/// The truncation limits, `(max_length, stride)`, that a model read from
/// these bytes carries, or `None` when it does not truncate.
pub uninterp spec fn model_truncation(bytes: Seq<u8>) -> Option<(usize, usize)>;

/// How many special tokens the post-processor of a model read from these
/// bytes adds to a single sequence.
pub uninterp spec fn model_added_tokens(bytes: Seq<u8>) -> usize;

/// Whether a tokenizer table takes a model from these bytes: they
/// deserialize, and its truncation limits leave room for its special tokens
/// and its stride.
pub open spec fn model_admitted(bytes: Seq<u8>) -> bool {
    model_accepted(bytes) && truncation_fits(model_truncation(bytes), model_added_tokens(bytes))
}

/// Relies on `tokenizers::Tokenizer::from_bytes`: it deserializes the model
/// from the bytes alone, so whether it succeeds, and the truncation limits
/// and post-processor of what it builds, depend on the bytes alone. Its
/// error becomes `None`.
#[verifier::external_body]
pub(crate) fn load_model(bytes: &[u8]) -> (r: Option<tokenizers::Tokenizer>)
    ensures
        r is Some <==> model_accepted(bytes@),
        r is Some ==> truncation_of(r->0) == model_truncation(bytes@),
        r is Some ==> added_special_tokens_of(r->0) == model_added_tokens(bytes@),
{
    tokenizers::Tokenizer::from_bytes(bytes).ok()
}

/// The truncation limits of a tokenizer, `(max_length, stride)`, or `None`
/// when it does not truncate.
pub uninterp spec fn truncation_of(t: tokenizers::Tokenizer) -> Option<(usize, usize)>;

/// How many special tokens the post-processor of a tokenizer adds to a
/// single sequence.
pub uninterp spec fn added_special_tokens_of(t: tokenizers::Tokenizer) -> usize;

/// Whether encoding one sequence with special tokens under these limits
/// stays within what truncation accepts: the special tokens fit in
/// `max_length`, and the stride is below the length that is left for text,
/// unless no length is left at all.
pub open spec fn truncation_fits(limits: Option<(usize, usize)>, added: usize) -> bool {
    match limits {
        None => true,
        Some((max_length, stride)) => max_length >= added && (max_length - added == 0 || stride
            < max_length - added),
    }
}

/// Whether a tokenizer can encode one sequence with special tokens without
/// failing an assertion or an arithmetic check of its truncation.
pub open spec fn encodes_safely(t: tokenizers::Tokenizer) -> bool {
    truncation_fits(truncation_of(t), added_special_tokens_of(t))
}

/// Relies on `Tokenizer::get_truncation`: the limits it was loaded with.
#[verifier::external_body]
pub(crate) fn truncation_limits(tokenizer: &tokenizers::Tokenizer) -> (r: Option<(usize, usize)>)
    ensures
        r == truncation_of(*tokenizer),
{
    tokenizer.get_truncation().map(|p| (p.max_length, p.stride))
}

/// Relies on `PostProcessor::added_tokens` for a single sequence, through
/// `Tokenizer::get_post_processor`; without a post-processor none are added.
#[verifier::external_body]
pub(crate) fn added_special_tokens(tokenizer: &tokenizers::Tokenizer) -> (r: usize)
    ensures
        r == added_special_tokens_of(*tokenizer),
{
    tokenizer.get_post_processor().map_or(0, |p| tokenizers::PostProcessor::added_tokens(p, false))
}

/// Whether a tokenizer with these truncation limits and this number of
/// added special tokens can encode text safely.
pub fn truncation_is_safe(limits: Option<(usize, usize)>, added: usize) -> (r: bool)
    ensures
        r == truncation_fits(limits, added),
{
    match limits {
        None => true,
        Some((max_length, stride)) => max_length >= added && (max_length - added == 0 || stride
            < max_length - added),
    }
}

/// Relies on `tokenizers::Tokenizer::encode` with special tokens added. Its
/// error becomes `None`. Truncation panics on the tokenizers that
/// `encodes_safely` leaves out. Some models draw random numbers while
/// encoding, so nothing is promised of the result.
#[verifier::external_body]
pub(crate) fn encode_with_special_tokens(
    tokenizer: &tokenizers::Tokenizer,
    text: &str,
) -> (r: Option<tokenizers::Encoding>)
    requires
        encodes_safely(*tokenizer),
{
    tokenizer.encode(text, true).ok()
}

/// The token ids that an encoding holds, one per token, in order.
pub uninterp spec fn ids_of(e: tokenizers::Encoding) -> Seq<u32>;

/// The attention mask that an encoding holds: 1 for a real token, 0 for
/// padding.
pub uninterp spec fn mask_of(e: tokenizers::Encoding) -> Seq<u32>;

/// Relies on `Encoding::get_ids`, which hands out the encoding's ids.
pub assume_specification[ tokenizers::Encoding::get_ids ](e: &tokenizers::Encoding) -> (r: &[u32])
    ensures
        r@ == ids_of(*e),
;

/// Relies on `Encoding::get_attention_mask`, which hands out the encoding's
/// attention mask.
pub assume_specification[ tokenizers::Encoding::get_attention_mask ](
    e: &tokenizers::Encoding,
) -> (r: &[u32])
    ensures
        r@ == mask_of(*e),
;

} // verus!
