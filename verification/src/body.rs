//! The JSON bodies the service expects on the wire: one object per entry,
//! with exactly the keys `embeddings` and `text` in that order, and an array
//! of such objects for a store request.

use vstd::prelude::*;

use crate::entry::EmbeddingEntry;
use crate::entry::EntryModel;
use crate::json::join_comma;
use crate::json::json_array;
use crate::json::json_string;
use crate::json::push_json_array_of;
use crate::json::push_json_string;
use crate::json::push_str_chars;

verus! {

/// The opening of an entry object, up to the value of its first key:
/// `{"embeddings":`.
pub open spec fn embeddings_key() -> Seq<char> {
    seq!['{', '"', 'e', 'm', 'b', 'e', 'd', 'd', 'i', 'n', 'g', 's', '"', ':']
}

/// The middle of an entry object, between its two values: `,"text":`.
pub open spec fn text_key() -> Seq<char> {
    seq![',', '"', 't', 'e', 'x', 't', '"', ':']
}

/// The JSON object that encodes one entry: exactly the keys `embeddings`
/// and `text`, in that order; the embedding values as an array, the text as
/// a JSON string.
pub open spec fn json_entry(m: EntryModel) -> Seq<char> {
    embeddings_key() + json_array(m.embeddings) + text_key() + json_string(m.text) + seq!['}']
}

/// The JSON texts of the given entries, in order.
pub open spec fn entry_texts(ms: Seq<EntryModel>) -> Seq<Seq<char>> {
    ms.map_values(|m: EntryModel| json_entry(m))
}

/// The JSON array that encodes the given entries: one object per entry, in
/// input order.
pub open spec fn json_entry_array(ms: Seq<EntryModel>) -> Seq<char> {
    json_array(entry_texts(ms))
}

/// Law: the body of a store request is a JSON array with exactly one
/// element per entry, and element `i` of the array is the encoding of entry
/// `i` — the input's length and order are preserved on the wire.
pub proof fn lemma_store_body_order(ms: Seq<EntryModel>)
    ensures
        json_entry_array(ms) == seq!['['] + join_comma(entry_texts(ms)) + seq![']'],
        entry_texts(ms).len() == ms.len(),
        forall|i: int| 0 <= i < ms.len() ==> entry_texts(ms)[i] == json_entry(ms[i]),
{
}

/// Law: storing a single entry sends exactly the search body of that entry
/// inside one pair of array brackets.
pub proof fn lemma_single_entry_array(m: EntryModel)
    ensures
        json_entry_array(seq![m]) == seq!['['] + json_entry(m) + seq![']'],
{
    assert(entry_texts(seq![m]) =~= seq![json_entry(m)]);
    assert(join_comma(seq![json_entry(m)]) == json_entry(m));
}

/// Appends the JSON object that encodes `e` to `out`.
pub fn push_entry(out: &mut Vec<char>, e: &EmbeddingEntry)
    ensures
        final(out)@ == old(out)@ + json_entry(e@),
{
    push_str_chars(out, "{\"embeddings\":");
    proof {
        reveal_strlit("{\"embeddings\":");
        assert("{\"embeddings\":"@ =~= embeddings_key());
    }
    push_json_array_of(out, &e.embeddings);
    push_str_chars(out, ",\"text\":");
    proof {
        reveal_strlit(",\"text\":");
        assert(",\"text\":"@ =~= text_key());
    }
    push_json_string(out, e.text.as_str());
    out.push('}');
    proof {
        assert(final(out)@ =~= old(out)@ + json_entry(e@));
    }
}

/// The JSON object that encodes one entry, as characters.
pub fn encode_entry(e: &EmbeddingEntry) -> (r: Vec<char>)
    ensures
        r@ == json_entry(e@),
{
    let mut out: Vec<char> = Vec::new();
    push_entry(&mut out, e);
    proof {
        assert(out@ =~= json_entry(e@));
    }
    out
}

/// The JSON array that encodes the given entries, as characters: one object
/// per entry, in input order.
pub fn encode_entries(es: &Vec<EmbeddingEntry>) -> (r: Vec<char>)
    ensures
        r@ == json_entry_array(es.deep_view()),
{
    let mut out: Vec<char> = Vec::new();
    out.push('[');
    let ghost all = entry_texts(es.deep_view());
    let mut k: usize = 0;
    while k < es.len()
        invariant
            k <= es.len(),
            all == entry_texts(es.deep_view()),
            all.len() == es@.len(),
            out@ == seq!['['] + join_comma(all.take(k as int)),
        decreases es.len() - k,
    {
        if k > 0 {
            out.push(',');
        }
        push_entry(&mut out, &es[k]);
        proof {
            assert(es.deep_view()[k as int] == es@[k as int].deep_view());
            assert(all[k as int] == json_entry(es@[k as int]@));
            crate::json::lemma_join_comma_step(all, k as int);
        }
        k += 1;
    }
    out.push(']');
    proof {
        assert(all.take(es@.len() as int) =~= all);
        assert(out@ =~= json_entry_array(es.deep_view()));
    }
    out
}

} // verus!
