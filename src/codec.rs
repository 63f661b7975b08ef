//! Decoding from, and encoding to, the plain values a serialization format
//! reads and writes: a text for each pattern, a list of texts for a set, and
//! the format's own absence, sequence and mapping shapes around them.
use vstd::prelude::*;

use crate::carrier::Serde;
use crate::kinds::{Pattern, PatternSet, texts_of};
use core::hash::{BuildHasher, Hash};
use std::collections::HashMap;
use vstd::std_specs::hash::{builds_valid_hashers, obeys_key_model, spec_hash_map_iter};
use vstd::std_specs::iter::IteratorSpec;

verus! {

/// Why a decode failed.
#[derive(Debug)]
pub enum DecodeError {
    /// A source text, or the member texts of a set, did not compile. The
    /// compiler's own error is kept, with its diagnostic.
    CompileFailure(regex::Error),
}

/// A value that can be rebuilt from what a format reads.
pub trait Decode: Sized {
    /// The plain value a format hands over for this shape.
    type Input;

    /// Whether `input` decodes successfully.
    spec fn decodable(input: Self::Input) -> bool;

    /// Whether this value is what decoding `input` gives.
    spec fn decodes_from(&self, input: Self::Input) -> bool;

    /// The error that decoding `input` fails with, when it fails.
    spec fn decode_error(input: Self::Input) -> DecodeError;

    /// Decodes `input`, all or nothing.
    fn decode(input: Self::Input) -> (r: Result<Self, DecodeError>)
        ensures
            r is Ok <==> Self::decodable(input),
            r matches Ok(v) ==> v.decodes_from(input),
            r matches Err(e) ==> e == Self::decode_error(input),
    ;
}

/// A value that can be written out as a plain value for a format.
pub trait Encode {
    /// The plain value a format is handed for this shape.
    type Output;

    /// Whether `out` is what encoding this value gives.
    spec fn encodes_to(&self, out: Self::Output) -> bool;

    /// Encodes the value.
    fn encode(&self) -> (r: Self::Output)
        ensures
            self.encodes_to(r),
    ;
}

impl<P: Pattern> Decode for P {
    type Input = String;

    open spec fn decodable(input: String) -> bool {
        P::accepts(input@)
    }

    open spec fn decodes_from(&self, input: String) -> bool {
        self.source() == input@
    }

    open spec fn decode_error(input: String) -> DecodeError {
        DecodeError::CompileFailure(P::error_of(input@))
    }

    fn decode(input: String) -> (r: Result<Self, DecodeError>) {
        match P::compile(input.as_str()) {
            Ok(p) => Ok(p),
            Err(e) => Err(DecodeError::CompileFailure(e)),
        }
    }
}

impl<P: Pattern> Encode for P {
    type Output = String;

    open spec fn encodes_to(&self, out: String) -> bool {
        out@ == self.source()
    }

    fn encode(&self) -> (r: String) {
        self.source_text().to_owned()
    }
}

impl<T: Decode> Decode for Option<T> {
    type Input = Option<T::Input>;

    open spec fn decodable(input: Option<T::Input>) -> bool {
        match input {
            None => true,
            Some(x) => T::decodable(x),
        }
    }

    open spec fn decodes_from(&self, input: Option<T::Input>) -> bool {
        match (*self, input) {
            (None, None) => true,
            (Some(v), Some(x)) => v.decodes_from(x),
            _ => false,
        }
    }

    open spec fn decode_error(input: Option<T::Input>) -> DecodeError {
        match input {
            None => arbitrary(),
            Some(x) => T::decode_error(x),
        }
    }

    fn decode(input: Option<T::Input>) -> (r: Result<Self, DecodeError>) {
        match input {
            None => Ok(None),
            Some(x) => match T::decode(x) {
                Ok(v) => Ok(Some(v)),
                Err(e) => Err(e),
            },
        }
    }
}

impl<T: Encode> Encode for Option<T> {
    type Output = Option<T::Output>;

    open spec fn encodes_to(&self, out: Option<T::Output>) -> bool {
        match (*self, out) {
            (None, None) => true,
            (Some(v), Some(o)) => v.encodes_to(o),
            _ => false,
        }
    }

    fn encode(&self) -> (r: Option<T::Output>) {
        match self {
            None => None,
            Some(v) => Some(v.encode()),
        }
    }
}

impl<T: Decode> Decode for Vec<T> {
    type Input = Vec<T::Input>;

    open spec fn decodable(input: Vec<T::Input>) -> bool {
        forall|i: int| 0 <= i < input@.len() ==> T::decodable(#[trigger] input@[i])
    }

    open spec fn decodes_from(&self, input: Vec<T::Input>) -> bool {
        &&& self@.len() == input@.len()
        &&& forall|i: int| 0 <= i < input@.len() ==> (#[trigger] self@[i]).decodes_from(input@[i])
    }

    open spec fn decode_error(input: Vec<T::Input>) -> DecodeError {
        first_error::<T>(input@)
    }

    fn decode(input: Vec<T::Input>) -> (r: Result<Self, DecodeError>) {
        let ghost items = input@;
        let mut out: Vec<T> = Vec::with_capacity(input.len());
        for item in it: input.into_iter()
            invariant
                it.seq() == items,
                out@.len() == it.index(),
                forall|j: int| 0 <= j < it.index() ==> T::decodable(#[trigger] items[j]),
                forall|j: int| 0 <= j < it.index() ==> (#[trigger] out@[j]).decodes_from(items[j]),
        {
            match T::decode(item) {
                Ok(v) => out.push(v),
                Err(e) => {
                    proof {
                        lemma_first_error::<T>(items, it.index());
                    }
                    return Err(e);
                },
            }
        }
        Ok(out)
    }
}

impl<T: Encode> Encode for Vec<T> {
    type Output = Vec<T::Output>;

    open spec fn encodes_to(&self, out: Vec<T::Output>) -> bool {
        &&& out@.len() == self@.len()
        &&& forall|i: int| 0 <= i < self@.len() ==> (#[trigger] self@[i]).encodes_to(out@[i])
    }

    fn encode(&self) -> (r: Vec<T::Output>) {
        let mut out: Vec<T::Output> = Vec::with_capacity(self.len());
        for i in 0..self.len()
            invariant
                out@.len() == i,
                forall|j: int| 0 <= j < i ==> (#[trigger] self@[j]).encodes_to(out@[j]),
        {
            out.push(self[i].encode());
        }
        out
    }
}

/// The error of the first item that does not decode: what a sequence of
/// items, decoded in order and all or nothing, fails with.
pub open spec fn first_error<T: Decode>(items: Seq<T::Input>) -> DecodeError
    decreases items.len(),
{
    if items.len() == 0 {
        arbitrary()
    } else if !T::decodable(items[0]) {
        T::decode_error(items[0])
    } else {
        first_error::<T>(items.drop_first())
    }
}

/// An item that does not decode, after items that all do, decides the error
/// of the whole sequence.
pub proof fn lemma_first_error<T: Decode>(items: Seq<T::Input>, i: int)
    requires
        0 <= i < items.len(),
        forall|j: int| 0 <= j < i ==> T::decodable(#[trigger] items[j]),
        !T::decodable(items[i]),
    ensures
        first_error::<T>(items) == T::decode_error(items[i]),
    decreases i,
{
    if i > 0 {
        assert(T::decodable(items[0]));
        let rest = items.drop_first();
        assert forall|j: int| 0 <= j < i - 1 implies T::decodable(#[trigger] rest[j]) by {
            assert(rest[j] == items[j + 1]);
        }
        lemma_first_error::<T>(rest, i - 1);
    }
}

/// The values of a mapping's entries, in order.
pub open spec fn values_of<K, V>(entries: Seq<(K, V)>) -> Seq<V> {
    entries.map_values(|e: (K, V)| e.1)
}

/// The mapping that inserting `entries` in order into an empty one gives:
/// a key that occurs more than once keeps its last value.
pub open spec fn entries_map<K, V>(entries: Seq<(K, V)>) -> Map<K, V>
    decreases entries.len(),
{
    if entries.len() == 0 {
        Map::empty()
    } else {
        entries_map(entries.drop_last()).insert(entries.last().0, entries.last().1)
    }
}

/// Whether the key type and hasher behave as a hash table needs them to.
pub open spec fn hash_model<K, S>() -> bool {
    obeys_key_model::<K>() && builds_valid_hashers::<S>()
}

/// Advances an iterator that follows the iterator laws by one item.
fn next_item<I: Iterator>(iter: &mut I) -> (r: Option<I::Item>)
    requires
        (*old(iter)).obeys_prophetic_iter_laws(),
    ensures
        (*final(iter)).obeys_prophetic_iter_laws(),
        (*old(iter)).remaining().len() > 0 ==> {
            &&& (*final(iter)).remaining() == (*old(iter)).remaining().drop_first()
            &&& r == Some((*old(iter)).remaining()[0])
        },
        (*old(iter)).remaining().len() == 0 ==> {
            &&& (*final(iter)).remaining() == (*old(iter)).remaining()
            &&& r is None
        },
{
    iter.next()
}

/// Builds a pattern set from all its member texts in one call, so that the
/// engine sees them together; any failure fails the set as a whole.
pub fn decode_pattern_set<S: PatternSet>(input: Vec<String>) -> (r: Result<S, DecodeError>)
    ensures
        r is Ok <==> S::accepts(texts_of(input@)),
        r matches Ok(set) ==> set.members() == texts_of(input@),
        r matches Err(e) ==> e == DecodeError::CompileFailure(S::error_of(texts_of(input@))),
{
    match S::compile(&input) {
        Ok(set) => Ok(set),
        Err(e) => Err(DecodeError::CompileFailure(e)),
    }
}

/// The member texts of a pattern set, in order.
pub fn encode_pattern_set<S: PatternSet>(set: &S) -> (r: Vec<String>)
    ensures
        texts_of(r@) == set.members(),
{
    let members = set.member_texts();
    let mut out: Vec<String> = Vec::with_capacity(members.len());
    for i in 0..members.len()
        invariant
            out@.len() == i,
            texts_of(members@) == set.members(),
            forall|j: int| 0 <= j < i ==> (#[trigger] out@[j])@ == members@[j]@,
    {
        out.push(members[i].clone());
    }
    assert(texts_of(out@) =~= texts_of(members@));
    out
}

impl Decode for regex::RegexSet {
    type Input = Vec<String>;

    open spec fn decodable(input: Vec<String>) -> bool {
        Self::accepts(texts_of(input@))
    }

    open spec fn decodes_from(&self, input: Vec<String>) -> bool {
        self.members() == texts_of(input@)
    }

    open spec fn decode_error(input: Vec<String>) -> DecodeError {
        DecodeError::CompileFailure(Self::error_of(texts_of(input@)))
    }

    fn decode(input: Vec<String>) -> (r: Result<Self, DecodeError>) {
        decode_pattern_set(input)
    }
}

impl Encode for regex::RegexSet {
    type Output = Vec<String>;

    open spec fn encodes_to(&self, out: Vec<String>) -> bool {
        texts_of(out@) == self.members()
    }

    fn encode(&self) -> (r: Vec<String>) {
        encode_pattern_set(self)
    }
}

impl Decode for regex::bytes::RegexSet {
    type Input = Vec<String>;

    open spec fn decodable(input: Vec<String>) -> bool {
        Self::accepts(texts_of(input@))
    }

    open spec fn decodes_from(&self, input: Vec<String>) -> bool {
        self.members() == texts_of(input@)
    }

    open spec fn decode_error(input: Vec<String>) -> DecodeError {
        DecodeError::CompileFailure(Self::error_of(texts_of(input@)))
    }

    fn decode(input: Vec<String>) -> (r: Result<Self, DecodeError>) {
        decode_pattern_set(input)
    }
}

impl Encode for regex::bytes::RegexSet {
    type Output = Vec<String>;

    open spec fn encodes_to(&self, out: Vec<String>) -> bool {
        texts_of(out@) == self.members()
    }

    fn encode(&self) -> (r: Vec<String>) {
        encode_pattern_set(self)
    }
}

impl<K: Eq + Hash, T: Decode, S: BuildHasher + Default> Decode for HashMap<K, T, S> {
    type Input = Vec<(K, T::Input)>;

    open spec fn decodable(input: Vec<(K, T::Input)>) -> bool {
        forall|i: int| 0 <= i < input@.len() ==> T::decodable(#[trigger] input@[i].1)
    }

    open spec fn decodes_from(&self, input: Vec<(K, T::Input)>) -> bool {
        hash_model::<K, S>() ==> {
            let model = entries_map(input@);
            &&& self@.dom() == model.dom()
            &&& forall|k: K| #[trigger] self@.contains_key(k) ==> self@[k].decodes_from(model[k])
        }
    }

    open spec fn decode_error(input: Vec<(K, T::Input)>) -> DecodeError {
        first_error::<T>(values_of(input@))
    }

    fn decode(input: Vec<(K, T::Input)>) -> (r: Result<Self, DecodeError>) {
        let ghost items = input@;
        let mut out: HashMap<K, T, S> = HashMap::default();
        out.reserve(input.len());
        for entry in it: input.into_iter()
            invariant
                it.seq() == items,
                forall|j: int| 0 <= j < it.index() ==> T::decodable(#[trigger] items[j].1),
                hash_model::<K, S>() ==> {
                    let model = entries_map(items.take(it.index()));
                    &&& out@.dom() == model.dom()
                    &&& forall|k: K| #[trigger] out@.contains_key(k) ==> out@[k].decodes_from(model[k])
                },
        {
            let ghost idx = it.index();
            let (k, x) = entry;
            match T::decode(x) {
                Ok(v) => {
                    out.insert(k, v);
                },
                Err(e) => {
                    proof {
                        lemma_first_error::<T>(values_of(items), idx);
                    }
                    return Err(e);
                },
            }
            assert(items.take(idx + 1).drop_last() =~= items.take(idx));
        }
        assert(items.take(items.len() as int) =~= items);
        Ok(out)
    }
}

impl<'a, K: Eq + Hash, T: Encode, S: BuildHasher> Encode for &'a HashMap<K, T, S> {
    type Output = Vec<(&'a K, T::Output)>;

    open spec fn encodes_to(&self, out: Vec<(&'a K, T::Output)>) -> bool {
        hash_model::<K, S>() ==> {
            let m = (**self)@;
            &&& out@.len() == m.dom().len()
            &&& forall|i: int, j: int|
                0 <= i < out@.len() && 0 <= j < out@.len() && i != j ==> *(#[trigger] out@[i]).0
                    != *(#[trigger] out@[j]).0
            &&& forall|i: int|
                0 <= i < out@.len() ==> m.contains_key(*(#[trigger] out@[i]).0) && m[*out@[i].0].encodes_to(
                    out@[i].1,
                )
            &&& forall|k: K| #[trigger] m.contains_key(k) ==> exists|i: int| 0 <= i < out@.len() && *out@[i].0 == k
        }
    }

    fn encode(&self) -> (r: Vec<(&'a K, T::Output)>) {
        let map: &'a HashMap<K, T, S> = *self;
        let n = map.len();
        let mut out: Vec<(&'a K, T::Output)> = Vec::with_capacity(n);
        let mut iter = map.iter();
        let ghost all = iter.remaining();
        proof {
            if hash_model::<K, S>() {
                assert(all == spec_hash_map_iter(map).remaining());
            }
        }
        while out.len() < n
            invariant
                out@.len() <= all.len(),
                iter.remaining() == all.skip(out@.len() as int),
                hash_model::<K, S>() ==> all == spec_hash_map_iter(map).remaining(),
                forall|j: int| 0 <= j < out@.len() ==> (#[trigger] out@[j]).0 == all[j].0,
                forall|j: int| 0 <= j < out@.len() ==> (*all[j].1).encodes_to(#[trigger] out@[j].1),
            ensures
                out@.len() >= n || out@.len() == all.len(),
                out@.len() <= all.len(),
                forall|j: int| 0 <= j < out@.len() ==> (#[trigger] out@[j]).0 == all[j].0,
                forall|j: int| 0 <= j < out@.len() ==> (*all[j].1).encodes_to(#[trigger] out@[j].1),
            decreases n - out@.len(),
        {
            match next_item(&mut iter) {
                Some(entry) => {
                    let (k, v) = entry;
                    out.push((k, v.encode()));
                },
                None => break,
            }
        }
        proof {
            if hash_model::<K, S>() {
                let m = map@;
                assert(all.len() == m.dom().len());
                assert(n == m.dom().len());
                assert forall|i: int| 0 <= i < out@.len() implies m.contains_key(
                    *(#[trigger] out@[i]).0,
                ) && m[*out@[i].0].encodes_to(out@[i].1) by {
                    assert(m.contains_key(*all[i].0));
                }
                assert forall|i: int, j: int|
                    0 <= i < out@.len() && 0 <= j < out@.len() && i != j implies *(
                    #[trigger] out@[i]).0 != *(#[trigger] out@[j]).0 by {
                    if *out@[i].0 == *out@[j].0 {
                        assert(m.contains_key(*all[i].0));
                        assert(m.contains_key(*all[j].0));
                        assert(all[i] == all[j]);
                    }
                }
                assert forall|k: K| #[trigger] m.contains_key(k) implies exists|i: int|
                    0 <= i < out@.len() && *out@[i].0 == k by {
                    assert(all.contains((&k, &m[k])));
                    let i = choose|i: int| 0 <= i < all.len() && all[i] == (&k, &m[k]);
                    assert(*out@[i].0 == k);
                }
            }
        }
        out
    }
}

impl<T: Decode> Serde<T> {
    /// Decodes `input` into a fresh carrier, all or nothing.
    pub fn decode(input: T::Input) -> (r: Result<Serde<T>, DecodeError>)
        ensures
            r is Ok <==> T::decodable(input),
            r matches Ok(w) ==> w.0.decodes_from(input),
            r matches Err(e) ==> e == T::decode_error(input),
    {
        match T::decode(input) {
            Ok(v) => Ok(Serde(v)),
            Err(e) => Err(e),
        }
    }
}

impl<T: Encode> Serde<T> {
    /// Encodes the carried value.
    pub fn encode(&self) -> (r: T::Output)
        ensures
            self.0.encodes_to(r),
    {
        self.0.encode()
    }
}

/// Decodes `input` through a transient carrier and hands back the bare
/// value; meant for a field of a record that holds a pattern.
pub fn deserialize<T: Decode>(input: T::Input) -> (r: Result<T, DecodeError>)
    ensures
        r is Ok <==> T::decodable(input),
        r matches Ok(v) ==> v.decodes_from(input),
        r matches Err(e) ==> e == T::decode_error(input),
{
    match Serde::<T>::decode(input) {
        Ok(w) => Ok(w.into_inner()),
        Err(e) => Err(e),
    }
}

/// Encodes a bare value; meant for a field of a record that holds a
/// pattern.
pub fn serialize<T: Encode>(value: &T) -> (r: T::Output)
    ensures
        value.encodes_to(r),
{
    value.encode()
}

} // verus!
