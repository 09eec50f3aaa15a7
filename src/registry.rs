//! Tokenizers held behind integer handles.
//!
//! Handle `h` names slot `h - 1` of the table; `0` names nothing. A slot is
//! filled when a tokenizer is created and emptied when it is deleted, and
//! slots are never reused, so a handle that was deleted stays dead.

use vstd::prelude::*;
use crate::engine::{
    added_special_tokens, encode_with_special_tokens, encodes_safely, ids_of, load_model, mask_of,
    model_accepted, model_admitted, truncation_is_safe, truncation_limits,
};
use crate::json::{
    encode_failure_text, encoding_payload, is_encoding_payload, no_tokenizer_json,
    no_tokenizer_text, payload_text, tokenization_text,
};

verus! {

/// The largest number of handles a table can issue.
pub const MAX_HANDLES: u64 = 0x7fff_ffff_ffff_ffff;

/// Whether handle `h` names a tokenizer in a table whose slots are `slots`
/// (for each slot, the model bytes of the tokenizer it holds, if any).
pub open spec fn live(slots: Seq<Option<Seq<u8>>>, h: i64) -> bool {
    1 <= h <= slots.len() && slots[h - 1] is Some
}

/// The slots after a tokenizer built from `model` was added.
pub open spec fn added(slots: Seq<Option<Seq<u8>>>, model: Seq<u8>) -> Seq<Option<Seq<u8>>> {
    slots.push(Some(model))
}

/// The slots after handle `h` was deleted: its slot is emptied if it was
/// live, and nothing changes otherwise.
pub open spec fn removed(slots: Seq<Option<Seq<u8>>>, h: i64) -> Seq<Option<Seq<u8>>> {
    if live(slots, h) {
        slots.update(h - 1, None)
    } else {
        slots
    }
}

/// A table of tokenizers, each named by a non-zero handle.
pub struct TokenizerRegistry {
    slots: Vec<Option<tokenizers::Tokenizer>>,
    /// For each slot, the model bytes that its tokenizer was built from.
    models: Ghost<Seq<Option<Seq<u8>>>>,
}

impl View for TokenizerRegistry {
    type V = Seq<Option<Seq<u8>>>;

    /// For each slot, the model bytes of the tokenizer it holds, if any.
    closed spec fn view(&self) -> Seq<Option<Seq<u8>>> {
        self.models@
    }
}

impl TokenizerRegistry {
    /// The ghost record follows the slots, and every tokenizer held can
    /// encode text safely.
    pub closed spec fn wf(&self) -> bool {
        &&& self.models@.len() == self.slots@.len()
        &&& forall|i: int|
            0 <= i < self.slots@.len() ==> (#[trigger] self.slots@[i] is Some <==> self.models@[i] is Some)
        &&& forall|i: int|
            0 <= i < self.slots@.len() && #[trigger] self.slots@[i] is Some ==> encodes_safely(
                self.slots@[i]->0,
            )
    }

    /// Whether `h` names a tokenizer of this table.
    pub open spec fn is_live(&self, h: i64) -> bool {
        live(self@, h)
    }

    /// An empty table: no handle is live.
    pub fn new() -> (r: TokenizerRegistry)
        ensures
            r.wf(),
            r@ == Seq::<Option<Seq<u8>>>::empty(),
    {
        TokenizerRegistry { slots: Vec::new(), models: Ghost(Seq::empty()) }
    }

    /// Whether `h` names a tokenizer of this table.
    pub fn has_tokenizer(&self, h: i64) -> (r: bool)
        requires
            self.wf(),
        ensures
            r == self.is_live(h),
    {
        if h < 1 || h as u64 > self.slots.len() as u64 {
            return false;
        }
        self.slots[(h - 1) as usize].is_some()
    }

    /// Builds a tokenizer from serialized model bytes and returns its new
    /// handle. Returns `0` when the bytes are not a model, when the model's
    /// truncation limits leave no room for its special tokens or its stride
    /// (encoding would then panic), or when the table has issued
    /// `MAX_HANDLES` handles already.
    pub fn create_tokenizer(&mut self, model_bytes: &[u8]) -> (h: i64)
        requires
            old(self).wf(),
        ensures
            final(self).wf(),
            h >= 0,
            h != 0 <==> (model_admitted(model_bytes@) && old(self)@.len() < MAX_HANDLES),
            h != 0 ==> final(self)@ == added(old(self)@, model_bytes@) && h == final(self)@.len(),
            h == 0 ==> final(self)@ == old(self)@,
            !model_accepted(model_bytes@) ==> h == 0,
    {
        let n = self.slots.len();
        if n as u64 >= MAX_HANDLES {
            return 0;
        }
        match load_model(model_bytes) {
            Some(tokenizer) => {
                let limits = truncation_limits(&tokenizer);
                let special = added_special_tokens(&tokenizer);
                if !truncation_is_safe(limits, special) {
                    return 0;
                }
                self.slots.push(Some(tokenizer));
                self.models = Ghost(added(self.models@, model_bytes@));
                assert(forall|i: int| 0 <= i < n ==> self.slots@[i] == old(self).slots@[i]);
                (n as u64 + 1) as i64
            },
            None => 0,
        }
    }

    /// Encodes `text`, with special tokens added, by the tokenizer that `h`
    /// names, and returns the JSON payload of the outcome: `{}` when `h`
    /// names no tokenizer (`0` among them); otherwise the payload that
    /// `encoding_payload` gives for what the encoder returned.
    pub fn tokenize(&self, h: i64, text: &str) -> (r: String)
        requires
            self.wf(),
        ensures
            !self.is_live(h) ==> r@ == no_tokenizer_text(),
            self.is_live(h) ==> is_encoding_payload(r@),
            self.is_live(h) ==> r@ == encode_failure_text() || exists|e: tokenizers::Encoding|
                r@ == #[trigger] payload_text(Some((ids_of(e), mask_of(e)))),
    {
        if h < 1 || h as u64 > self.slots.len() as u64 {
            return no_tokenizer_json();
        }
        let i = (h - 1) as usize;
        match &self.slots[i] {
            None => no_tokenizer_json(),
            Some(tokenizer) => match encode_with_special_tokens(tokenizer, text) {
                Some(encoding) => {
                    let ids = encoding.get_ids();
                    let mask = encoding.get_attention_mask();
                    let r = encoding_payload(Some((ids, mask)));
                    assert(r@ == payload_text(Some((ids@, mask@))));
                    assert(r@ == payload_text(Some((ids_of(encoding), mask_of(encoding)))));
                    r
                },
                None => {
                    let r = encoding_payload(None);
                    assert(r@ == payload_text(None));
                    assert(r@ == encode_failure_text());
                    r
                },
            },
        }
    }

    /// Releases the tokenizer that `h` names. A handle that names none, `0`
    /// among them, changes nothing.
    pub fn delete_tokenizer(&mut self, h: i64)
        requires
            old(self).wf(),
        ensures
            final(self).wf(),
            final(self)@ == removed(old(self)@, h),
    {
        if h < 1 || h as u64 > self.slots.len() as u64 {
            return ;
        }
        let i = (h - 1) as usize;
        if self.slots[i].is_none() {
            return ;
        }
        self.slots.set(i, None);
        self.models = Ghost(removed(self.models@, h));
        assert(self.models@ == old(self).models@.update(i as int, None));
        assert forall|j: int| 0 <= j < self.slots@.len() && j != i implies self.slots@[j] == old(
            self,
        ).slots@[j] && self.models@[j] == old(self).models@[j] by {}
    }
}

/// A tokenizer that was added gets a non-zero handle that is live and holds
/// the model it was built from, and every handle that was issued before
/// keeps its state.
pub proof fn lemma_added_handle_is_live(slots: Seq<Option<Seq<u8>>>, model: Seq<u8>, other: i64)
    requires
        slots.len() < MAX_HANDLES,
        other != slots.len() + 1,
    ensures
        live(added(slots, model), (slots.len() + 1) as i64),
        added(slots, model)[slots.len() as int] == Some(model),
        live(added(slots, model), other) == live(slots, other),
{
}

/// Deleting a live handle leaves it dead, and every other handle keeps its
/// state: callers that hold other handles go on as before.
pub proof fn lemma_delete_releases_only_its_handle(slots: Seq<Option<Seq<u8>>>, h: i64, other: i64)
    requires
        other != h,
    ensures
        !live(removed(slots, h), h),
        live(removed(slots, h), other) == live(slots, other),
{
}

/// Whether a table takes a model depends on its bytes alone: with room in
/// the table, two creations from equal bytes both issue a handle or both
/// return `0`.
pub proof fn lemma_same_bytes_same_outcome(a: Seq<u8>, b: Seq<u8>)
    requires
        a == b,
    ensures
        model_admitted(a) == model_admitted(b),
{
}

/// Deleting handle `0` changes nothing.
pub proof fn lemma_delete_zero_is_no_op(slots: Seq<Option<Seq<u8>>>)
    ensures
        removed(slots, 0) == slots,
{
}

/// A payload for a live handle is never the `{}` of a missing tokenizer, so
/// callers can tell the two apart.
pub proof fn lemma_payloads_differ(s: Seq<char>)
    requires
        is_encoding_payload(s),
    ensures
        s != no_tokenizer_text(),
{
    reveal_strlit("{}");
    reveal_strlit("{\"ids\": [], \"attention_mask\": []}");
    reveal_strlit("{\"ids\":");
    let outcome = choose|outcome: Option<(Seq<u32>, Seq<u32>)>| s == payload_text(outcome);
    if s != encode_failure_text() {
        let (ids, mask) = outcome->0;
        assert(s == tokenization_text(ids, mask));
        assert(s[1] == '"');
    } else {
        assert(s.len() != 2);
    }
}

/// A payload for a live handle that is not the failure payload lists as
/// many attention-mask values as ids.
pub proof fn lemma_payload_lengths_agree(s: Seq<char>)
    requires
        is_encoding_payload(s),
        s != encode_failure_text(),
    ensures
        exists|ids: Seq<u32>, mask: Seq<u32>|
            ids.len() == mask.len() && s == #[trigger] tokenization_text(ids, mask),
{
    let outcome = choose|outcome: Option<(Seq<u32>, Seq<u32>)>| s == payload_text(outcome);
    let (ids, mask) = outcome->0;
    assert(ids.len() == mask.len() && s == tokenization_text(ids, mask));
}

} // verus!
