//! What holds across decoding and encoding, over every input.
use vstd::prelude::*;

use crate::codec::{
    Decode, DecodeError, Encode, entries_map, hash_model, lemma_first_error, values_of,
};
use crate::kinds::{Pattern, PatternSet, texts_of};
use core::hash::{BuildHasher, Hash};
use std::collections::HashMap;

verus! {

/// The entries of a mapping with each value seen as its text.
pub open spec fn text_entries<K>(entries: Seq<(K, String)>) -> Seq<(K, Seq<char>)> {
    entries.map_values(|e: (K, String)| (e.0, e.1@))
}

/// The (key, text) pairs that an encoded mapping lists.
pub open spec fn listed_pairs<K>(out: Seq<(&K, String)>) -> Set<(K, Seq<char>)> {
    Set::new(
        |p: (K, Seq<char>)| exists|i: int| 0 <= i < out.len() && *out[i].0 == p.0 && out[i].1@ == p.1,
    )
}

/// Seeing values as texts commutes with building the mapping.
pub proof fn lemma_text_entries_map<K>(entries: Seq<(K, String)>)
    ensures
        entries_map(text_entries(entries)) == entries_map(entries).map_values(|s: String| s@),
    decreases entries.len(),
{
    if entries.len() > 0 {
        lemma_text_entries_map(entries.drop_last());
        assert(text_entries(entries).drop_last() =~= text_entries(entries.drop_last()));
    }
    assert(entries_map(text_entries(entries)) =~= entries_map(entries).map_values(|s: String| s@));
}

/// In a mapping built from entries, a key that occurs more than once keeps
/// the value of its last entry.
pub proof fn lemma_entries_map_last_wins<K, V>(entries: Seq<(K, V)>, i: int)
    requires
        0 <= i < entries.len(),
        forall|j: int| i < j < entries.len() ==> (#[trigger] entries[j]).0 != entries[i].0,
    ensures
        entries_map(entries).contains_key(entries[i].0),
        entries_map(entries)[entries[i].0] == entries[i].1,
    decreases entries.len(),
{
    if i < entries.len() - 1 {
        let rest = entries.drop_last();
        assert(entries[entries.len() - 1].0 != entries[i].0);
        assert forall|j: int| i < j < rest.len() implies (#[trigger] rest[j]).0 != rest[i].0 by {
            assert(rest[j] == entries[j]);
        }
        lemma_entries_map_last_wins(rest, i);
    }
}

/// Round trip of a single pattern, text or byte oriented: a pattern decoded
/// from a text encodes back to exactly that text, and that text decodes
/// again, to a pattern with the same source.
pub proof fn lemma_pattern_round_trip<P: Pattern>(input: String, p: P, out: String, q: P)
    requires
        <P as Decode>::decodable(input),
        p.decodes_from(input),
        p.encodes_to(out),
        q.decodes_from(out),
    ensures
        out@ == input@,
        <P as Decode>::decodable(out),
        q.source() == p.source(),
{
}

/// Round trip of a pattern set: a set decoded from member texts encodes back
/// to exactly those texts in the same order, and they build a set again,
/// with the same members.
pub proof fn lemma_set_round_trip<S: PatternSet>(
    input: Vec<String>,
    set: S,
    out: Vec<String>,
    again: S,
)
    requires
        S::accepts(texts_of(input@)),
        set.members() == texts_of(input@),
        texts_of(out@) == set.members(),
        again.members() == texts_of(out@),
    ensures
        texts_of(out@) == texts_of(input@),
        S::accepts(texts_of(out@)),
        again.members() == set.members(),
{
}

/// Absence: for every decodable and encodable shape, nested ones included,
/// the format's absence decodes, and only to an absent value, and an absent
/// value encodes to the format's absence alone.
pub proof fn lemma_absence<T: Decode + Encode>(v: Option<T>, out: Option<<T as Encode>::Output>)
    ensures
        <Option<T> as Decode>::decodable(None),
        v.decodes_from(None) <==> v is None,
        None::<T>.encodes_to(out) <==> out is None,
{
}

/// Order of a sequence: decoding a sequence of texts and encoding the result
/// gives back the same texts, as many and in the same order.
pub proof fn lemma_sequence_order<P: Pattern>(input: Vec<String>, v: Vec<P>, out: Vec<String>)
    requires
        v.decodes_from(input),
        v.encodes_to(out),
    ensures
        texts_of(out@) == texts_of(input@),
{
    assert(texts_of(out@) =~= texts_of(input@)) by {
        assert forall|i: int| 0 <= i < out@.len() implies out@[i]@ == input@[i]@ by {
            assert(v@[i].decodes_from(input@[i]));
            assert(v@[i].encodes_to(out@[i]));
        }
    }
}

/// Integrity of a mapping: decoding key-to-text entries and encoding the
/// result lists, in whatever order, exactly the (key, text) pairs of the
/// input, each key once and with the text of its last entry.
pub proof fn lemma_mapping_integrity<'a, K: Eq + Hash, P: Pattern, S: BuildHasher + Default>(
    input: Vec<(K, String)>,
    m: &'a HashMap<K, P, S>,
    out: Vec<(&'a K, String)>,
)
    requires
        hash_model::<K, S>(),
        (*m).decodes_from(input),
        m.encodes_to(out),
    ensures
        listed_pairs(out@) == entries_map(text_entries(input@)).kv_pairs(),
        out@.len() == entries_map(text_entries(input@)).dom().len(),
{
    let model = entries_map(text_entries(input@));
    lemma_text_entries_map(input@);
    assert(model.dom() == entries_map(input@).dom());
    assert forall|p: (K, Seq<char>)| #[trigger] listed_pairs(out@).contains(p) implies model.kv_pairs().contains(p) by {
        let i = choose|i: int| 0 <= i < out@.len() && *out@[i].0 == p.0 && out@[i].1@ == p.1;
        assert(m@.contains_key(*out@[i].0));
        assert(m@[p.0].decodes_from(entries_map(input@)[p.0]));
    }
    assert forall|p: (K, Seq<char>)| #[trigger] model.kv_pairs().contains(p) implies listed_pairs(out@).contains(p) by {
        assert(model.contains_pair(p.0, p.1));
        assert(m@.contains_key(p.0));
        let i = choose|i: int| 0 <= i < out@.len() && *out@[i].0 == p.0;
        assert(m@[p.0].decodes_from(entries_map(input@)[p.0]));
        assert(m@[*out@[i].0].encodes_to(out@[i].1));
    }
    assert(listed_pairs(out@) =~= model.kv_pairs());
}

/// Duplicate keys: in a decoded mapping each key holds the pattern of its
/// last entry.
pub proof fn lemma_mapping_last_wins<K: Eq + Hash, P: Pattern, S: BuildHasher + Default>(
    input: Vec<(K, String)>,
    m: HashMap<K, P, S>,
    i: int,
)
    requires
        hash_model::<K, S>(),
        m.decodes_from(input),
        0 <= i < input@.len(),
        forall|j: int| i < j < input@.len() ==> (#[trigger] input@[j]).0 != input@[i].0,
    ensures
        m@.contains_key(input@[i].0),
        m@[input@[i].0].source() == input@[i].1@,
{
    lemma_entries_map_last_wins(input@, i);
}

/// Compile failure of a single pattern: a text that does not compile does
/// not decode, and the failure carries the compiler's own error for it.
pub proof fn lemma_invalid_pattern_fails<P: Pattern>(input: String)
    requires
        !P::accepts(input@),
    ensures
        !<P as Decode>::decodable(input),
        <P as Decode>::decode_error(input) == DecodeError::CompileFailure(P::error_of(input@)),
{
}

/// Statelessness: decoding depends on the text alone, so two decodes of equal
/// texts both succeed, or both fail with the same error.
pub proof fn lemma_pattern_same_text_same_outcome<P: Pattern>(a: String, b: String)
    requires
        a@ == b@,
    ensures
        <P as Decode>::decodable(a) == <P as Decode>::decodable(b),
        <P as Decode>::decode_error(a) == <P as Decode>::decode_error(b),
{
}

/// Statelessness of sets: equal member texts build, or fail with the same
/// error, alike.
pub proof fn lemma_set_same_texts_same_outcome(a: Vec<String>, b: Vec<String>)
    requires
        texts_of(a@) == texts_of(b@),
    ensures
        <regex::RegexSet as Decode>::decodable(a) == <regex::RegexSet as Decode>::decodable(b),
        <regex::RegexSet as Decode>::decode_error(a) == <regex::RegexSet as Decode>::decode_error(b),
        <regex::bytes::RegexSet as Decode>::decodable(a)
            == <regex::bytes::RegexSet as Decode>::decodable(b),
        <regex::bytes::RegexSet as Decode>::decode_error(a)
            == <regex::bytes::RegexSet as Decode>::decode_error(b),
{
}

/// An optional value that is present fails, if at all, with its inner value's
/// error, unchanged.
pub proof fn lemma_option_passes_error<T: Decode>(x: T::Input)
    ensures
        <Option<T> as Decode>::decodable(Some(x)) == T::decodable(x),
        <Option<T> as Decode>::decode_error(Some(x)) == T::decode_error(x),
{
}

/// A sequence fails with the error of its first element that does not
/// decode, unchanged.
pub proof fn lemma_sequence_fails_with_first_error<T: Decode>(input: Vec<T::Input>, i: int)
    requires
        0 <= i < input@.len(),
        forall|j: int| 0 <= j < i ==> T::decodable(#[trigger] input@[j]),
        !T::decodable(input@[i]),
    ensures
        !<Vec<T> as Decode>::decodable(input),
        <Vec<T> as Decode>::decode_error(input) == T::decode_error(input@[i]),
{
    lemma_first_error::<T>(input@, i);
}

/// A mapping fails with the error of the value of its first entry that does
/// not decode, unchanged.
pub proof fn lemma_mapping_fails_with_first_error<
    K: Eq + Hash,
    T: Decode,
    S: BuildHasher + Default,
>(input: Vec<(K, T::Input)>, i: int)
    requires
        0 <= i < input@.len(),
        forall|j: int| 0 <= j < i ==> T::decodable(#[trigger] input@[j].1),
        !T::decodable(input@[i].1),
    ensures
        !<HashMap<K, T, S> as Decode>::decodable(input),
        <HashMap<K, T, S> as Decode>::decode_error(input) == T::decode_error(input@[i].1),
{
    let values = values_of(input@);
    assert forall|j: int| 0 <= j < i implies T::decodable(#[trigger] values[j]) by {
        assert(values[j] == input@[j].1);
    }
    lemma_first_error::<T>(values, i);
}

/// Compile failure of a set: member texts that do not build a set do not
/// decode, and no set is handed back.
pub proof fn lemma_invalid_set_fails(input: Vec<String>)
    ensures
        !<regex::RegexSet as PatternSet>::accepts(texts_of(input@))
            ==> !<regex::RegexSet as Decode>::decodable(input),
        !<regex::bytes::RegexSet as PatternSet>::accepts(texts_of(input@))
            ==> !<regex::bytes::RegexSet as Decode>::decodable(input),
{
}

/// Compile failure inside a sequence: one element that does not decode fails
/// the whole sequence.
pub proof fn lemma_invalid_element_fails_sequence<T: Decode>(input: Vec<T::Input>, i: int)
    requires
        0 <= i < input@.len(),
        !T::decodable(input@[i]),
    ensures
        !<Vec<T> as Decode>::decodable(input),
{
}

/// Compile failure inside a mapping: one value that does not decode fails
/// the whole mapping, even one whose key a later entry overwrites.
pub proof fn lemma_invalid_value_fails_mapping<K: Eq + Hash, T: Decode, S: BuildHasher + Default>(
    input: Vec<(K, T::Input)>,
    i: int,
)
    requires
        0 <= i < input@.len(),
        !T::decodable(input@[i].1),
    ensures
        !<HashMap<K, T, S> as Decode>::decodable(input),
{
}

} // verus!
