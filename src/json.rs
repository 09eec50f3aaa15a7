//! The JSON texts that encoding returns, as character sequences, and the
//! code that writes them.

use vstd::prelude::*;

verus! {

/// The character of the decimal digit `d` (`0 <= d < 10`).
pub open spec fn digit_char(d: nat) -> char {
    if d == 0 {
        '0'
    } else if d == 1 {
        '1'
    } else if d == 2 {
        '2'
    } else if d == 3 {
        '3'
    } else if d == 4 {
        '4'
    } else if d == 5 {
        '5'
    } else if d == 6 {
        '6'
    } else if d == 7 {
        '7'
    } else if d == 8 {
        '8'
    } else {
        '9'
    }
}

/// `n` written in decimal, without leading zeros.
pub open spec fn decimal(n: nat) -> Seq<char>
    decreases n,
{
    if n < 10 {
        seq![digit_char(n)]
    } else {
        decimal(n / 10).push(digit_char(n % 10))
    }
}

/// The numbers of `s` in decimal, separated by commas.
pub open spec fn json_items(s: Seq<u32>) -> Seq<char>
    decreases s.len(),
{
    if s.len() == 0 {
        Seq::empty()
    } else if s.len() == 1 {
        decimal(s[0] as nat)
    } else {
        json_items(s.drop_last()) + seq![','] + decimal(s.last() as nat)
    }
}

/// A compact JSON array of the numbers of `s`, in order: `[1,2,3]`.
pub open spec fn json_array(s: Seq<u32>) -> Seq<char> {
    seq!['['] + json_items(s) + seq![']']
}

/// The payload of a successful encoding:
/// `{"ids":[...],"attention_mask":[...]}`.
pub open spec fn tokenization_text(ids: Seq<u32>, attention_mask: Seq<u32>) -> Seq<char> {
    "{\"ids\":"@ + json_array(ids) + ",\"attention_mask\":"@ + json_array(attention_mask) + "}"@
}

/// The payload for a handle that names no tokenizer.
pub open spec fn no_tokenizer_text() -> Seq<char> {
    "{}"@
}

/// The payload for text that the encoder rejected.
pub open spec fn encode_failure_text() -> Seq<char> {
    "{\"ids\": [], \"attention_mask\": []}"@
}

/// The payload for an outcome of the encoder: its ids and attention mask
/// when it succeeded with the two of equal length, and the failure payload
/// otherwise.
pub open spec fn payload_text(outcome: Option<(Seq<u32>, Seq<u32>)>) -> Seq<char> {
    match outcome {
        Some((ids, mask)) => if ids.len() == mask.len() {
            tokenization_text(ids, mask)
        } else {
            encode_failure_text()
        },
        None => encode_failure_text(),
    }
}

/// What encoding through a live handle may return: the payload of some
/// outcome of the encoder.
pub open spec fn is_encoding_payload(s: Seq<char>) -> bool {
    exists|outcome: Option<(Seq<u32>, Seq<u32>)>| s == #[trigger] payload_text(outcome)
}

/// Relies on `serde_json::to_string` on a slice of `u32`: a compact array of
/// the numbers in decimal, comma-separated. Writing into memory cannot fail.
#[verifier::external_body]
fn u32_array_json(values: &[u32]) -> (r: String)
    ensures
        r@ == json_array(values@),
{
    match serde_json::to_string(values) {
        Ok(s) => s,
        Err(_) => String::new(),
    }
}

/// The payload of a successful encoding with these ids and attention mask.
pub fn tokenization_json(ids: &[u32], attention_mask: &[u32]) -> (r: String)
    ensures
        r@ == tokenization_text(ids@, attention_mask@),
{
    let mut out = "{\"ids\":".to_owned();
    let ids_text = u32_array_json(ids);
    out.append(ids_text.as_str());
    out.append(",\"attention_mask\":");
    let mask_text = u32_array_json(attention_mask);
    out.append(mask_text.as_str());
    out.append("}");
    out
}

/// The payload for an outcome of the encoder: `None` when it failed, or the
/// ids and attention mask it produced.
pub fn encoding_payload(outcome: Option<(&[u32], &[u32])>) -> (r: String)
    ensures
        r@ == payload_text(
            match outcome {
                Some((ids, mask)) => Some((ids@, mask@)),
                None => None,
            },
        ),
{
    match outcome {
        Some((ids, mask)) => if ids.len() == mask.len() {
            tokenization_json(ids, mask)
        } else {
            encode_failure_json()
        },
        None => encode_failure_json(),
    }
}

/// The payload for a handle that names no tokenizer: `{}`.
pub fn no_tokenizer_json() -> (r: String)
    ensures
        r@ == no_tokenizer_text(),
{
    "{}".to_owned()
}

/// The payload for text that the encoder rejected.
pub fn encode_failure_json() -> (r: String)
    ensures
        r@ == encode_failure_text(),
{
    "{\"ids\": [], \"attention_mask\": []}".to_owned()
}

} // verus!
