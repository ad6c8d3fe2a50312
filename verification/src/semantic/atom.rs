//! 256-bit semantic atoms and subject-predicate-object triples.

use vstd::prelude::*;
use vstd::bytes::{spec_u64_to_le_bytes, u64_to_le_bytes};
use vstd::wrapping::u64_specs;
use crate::text::{hex, hex_spec, push_bytes};

verus! {

/// A 256-bit semantic atom (four 64-bit words, least significant first).
#[derive(Debug, Clone, Copy, PartialEq)]
pub struct SemanticAtom {
    pub data: [u64; 4],
}

/// One step of the seed expansion: `x * 0x9E3779B97F4A7C15 + 0xBF58476D1CE4E5B9`
/// modulo 2^64.
pub open spec fn seed_step(x: u64) -> u64 {
    u64_specs::wrapping_add(u64_specs::wrapping_mul(x, 0x9E3779B97F4A7C15), 0xBF58476D1CE4E5B9)
}

/// The words of the atom expanded from `seed`.
pub open spec fn seed_words(seed: u64) -> Seq<u64> {
    seq![seed, seed_step(seed), seed_step(seed_step(seed)), seed_step(seed_step(seed_step(seed)))]
}

/// The big-endian bytes of a word.
pub open spec fn be_bytes(x: u64) -> Seq<u8> {
    spec_u64_to_le_bytes(x).reverse()
}

/// `{:016x}` of a word: sixteen lowercase hexadecimal digits.
pub open spec fn word_hex(x: u64) -> Seq<char> {
    hex_spec(be_bytes(x))
}

/// `Atom(...)` with the words printed most significant first.
pub open spec fn atom_text(d: Seq<u64>) -> Seq<char> {
    "Atom("@ + word_hex(d[3]) + word_hex(d[2]) + word_hex(d[1]) + word_hex(d[0]) + ")"@
}

fn word_hex_string(x: u64) -> (s: String)
    ensures
        s@ == word_hex(x),
{
    let le = u64_to_le_bytes(x);
    let mut be: Vec<u8> = Vec::new();
    let mut i: usize = 8;
    while i > 0
        invariant
            i <= 8,
            le@ == spec_u64_to_le_bytes(x),
            le@.len() == 8,
            be@ == le@.reverse().take(8 - i),
        decreases i,
    {
        i = i - 1;
        be.push(le[i]);
        proof {
            assert(le@.reverse().take(8 - i) =~= le@.reverse().take(8 - (i + 1)).push(le@[i as int]));
        }
    }
    assert(be@ =~= le@.reverse());
    hex(be.as_slice())
}

/// The 32 bytes of an atom's words in memory order on the little-endian
/// target: each word least significant byte first, words in index order.
pub open spec fn atom_bytes(d: Seq<u64>) -> Seq<u8> {
    spec_u64_to_le_bytes(d[0]) + spec_u64_to_le_bytes(d[1]) + spec_u64_to_le_bytes(d[2])
        + spec_u64_to_le_bytes(d[3])
}

fn push_atom_bytes(out: &mut Vec<u8>, d: &[u64; 4])
    ensures
        final(out)@ == old(out)@ + atom_bytes(d@),
{
    let b0 = u64_to_le_bytes(d[0]);
    push_bytes(out, b0.as_slice());
    let b1 = u64_to_le_bytes(d[1]);
    push_bytes(out, b1.as_slice());
    let b2 = u64_to_le_bytes(d[2]);
    push_bytes(out, b2.as_slice());
    let b3 = u64_to_le_bytes(d[3]);
    push_bytes(out, b3.as_slice());
    assert(out@ =~= old(out)@ + atom_bytes(d@));
}

/// Word-by-word equality of two 256-bit values.
pub fn words_eq(a: &[u64; 4], b: &[u64; 4]) -> (r: bool)
    ensures
        r == (a@ == b@),
{
    let mut i: usize = 0;
    while i < 4
        invariant
            i <= 4,
            a@.len() == 4,
            b@.len() == 4,
            forall|j: int| 0 <= j < i ==> a@[j] == b@[j],
        decreases 4 - i,
    {
        if a[i] != b[i] {
            return false;
        }
        i = i + 1;
    }
    assert(a@ =~= b@);
    true
}

impl SemanticAtom {
    /// An atom holding the given words.
    pub fn new(data: [u64; 4]) -> (a: Self)
        ensures
            a.data == data,
    {
        SemanticAtom { data }
    }

    /// An atom expanded from a 64-bit seed: the first word is the seed, each
    /// next word is the previous one times `0x9E3779B97F4A7C15` plus
    /// `0xBF58476D1CE4E5B9`, wrapping.
    pub fn from_seed(seed: u64) -> (a: Self)
        ensures
            a.data@ == seed_words(seed),
    {
        let mut data = [0u64; 4];
        data[0] = seed;
        let mut i: usize = 1;
        while i < 4
            invariant
                1 <= i <= 4,
                data@.len() == 4,
                forall|j: int| 0 <= j < i ==> data@[j] == seed_words(seed)[j],
            decreases 4 - i,
        {
            let next = data[i - 1].wrapping_mul(0x9E3779B97F4A7C15).wrapping_add(0xBF58476D1CE4E5B9);
            data[i] = next;
            i = i + 1;
        }
        assert(data@ =~= seed_words(seed));
        SemanticAtom { data }
    }

    /// An atom holding the given random words.
    pub fn from_random(rng_data: [u64; 4]) -> (a: Self)
        ensures
            a.data == rng_data,
    {
        SemanticAtom { data: rng_data }
    }

    /// The least significant word.
    pub fn as_u64(&self) -> (w: u64)
        ensures
            w == self.data@[0],
    {
        self.data[0]
    }

    /// Software comparison: equal words.
    pub fn compare_sw(a: &SemanticAtom, b: &SemanticAtom) -> (r: bool)
        ensures
            r == (a.data@ == b.data@),
    {
        words_eq(&a.data, &b.data)
    }

    /// Comparison through the atom comparator.
    pub fn compare_scie(a: &SemanticAtom, b: &SemanticAtom) -> (r: bool)
        ensures
            r == (a.data@ == b.data@),
    {
        crate::semantic::scie::Scie::compare_atoms(&a.data, &b.data)
    }

    /// Comparison with automatic method selection. The comparator and the
    /// software path decide the same thing (equal words), so the selection
    /// does not affect the answer.
    pub fn compare(a: &SemanticAtom, b: &SemanticAtom) -> (r: bool)
        ensures
            r == (a.data@ == b.data@),
    {
        Self::compare_sw(a, b)
    }

    /// The atom's 32 bytes as laid out in memory on the target.
    pub fn as_bytes(&self) -> (b: Vec<u8>)
        ensures
            b@ == atom_bytes(self.data@),
    {
        let mut out: Vec<u8> = Vec::new();
        push_atom_bytes(&mut out, &self.data);
        assert(out@ =~= atom_bytes(self.data@));
        out
    }

    /// The four words.
    pub fn as_u256(&self) -> (d: [u64; 4])
        ensures
            d == self.data,
    {
        self.data
    }

    /// Whether every word is zero.
    pub fn is_zero(&self) -> (b: bool)
        ensures
            b == (forall|i: int| 0 <= i < 4 ==> self.data@[i] == 0),
    {
        let mut i: usize = 0;
        while i < 4
            invariant
                i <= 4,
                self.data@.len() == 4,
                forall|j: int| 0 <= j < i ==> self.data@[j] == 0,
            decreases 4 - i,
        {
            if self.data[i] != 0 {
                return false;
            }
            i = i + 1;
        }
        true
    }

    /// Whether some word is non-zero.
    pub fn is_valid(&self) -> (b: bool)
        ensures
            b == !(forall|i: int| 0 <= i < 4 ==> self.data@[i] == 0),
    {
        !self.is_zero()
    }

    /// `Atom(<64 hexadecimal digits>)`, most significant word first.
    pub fn to_display_string(&self) -> (s: String)
        ensures
            s@ == atom_text(self.data@),
    {
        let mut s = String::from_str("Atom(");
        let w3 = word_hex_string(self.data[3]);
        s.append(w3.as_str());
        let w2 = word_hex_string(self.data[2]);
        s.append(w2.as_str());
        let w1 = word_hex_string(self.data[1]);
        s.append(w1.as_str());
        let w0 = word_hex_string(self.data[0]);
        s.append(w0.as_str());
        s.append(")");
        s
    }
}

impl Default for SemanticAtom {
    fn default() -> (a: Self)
        ensures
            a.data@ == seq![0u64, 0u64, 0u64, 0u64],
    {
        let a = SemanticAtom { data: [0u64; 4] };
        assert(a.data@ =~= seq![0u64, 0u64, 0u64, 0u64]);
        a
    }
}

/// A subject-predicate-object relationship between atoms.
#[derive(Debug, Clone, Copy, PartialEq)]
pub struct SemanticTriple {
    pub subject: SemanticAtom,
    pub predicate: SemanticAtom,
    pub object: SemanticAtom,
}

impl SemanticTriple {
    /// A triple of the given atoms.
    pub fn new(subject: SemanticAtom, predicate: SemanticAtom, object: SemanticAtom) -> (t: Self)
        ensures
            t.subject == subject,
            t.predicate == predicate,
            t.object == object,
    {
        SemanticTriple { subject, predicate, object }
    }

    /// The predicate atom.
    pub fn predicate(&self) -> (p: &SemanticAtom)
        ensures
            *p == self.predicate,
    {
        &self.predicate
    }

    /// The object atom.
    pub fn object(&self) -> (o: &SemanticAtom)
        ensures
            *o == self.object,
    {
        &self.object
    }

    /// The subject atom.
    pub fn subject(&self) -> (s: &SemanticAtom)
        ensures
            *s == self.subject,
    {
        &self.subject
    }

    /// The triple's 96 bytes as laid out in memory on the target: subject,
    /// predicate, then object.
    pub fn as_bytes(&self) -> (b: Vec<u8>)
        ensures
            b@ == atom_bytes(self.subject.data@) + atom_bytes(self.predicate.data@) + atom_bytes(
                self.object.data@,
            ),
    {
        let mut out: Vec<u8> = Vec::new();
        push_atom_bytes(&mut out, &self.subject.data);
        push_atom_bytes(&mut out, &self.predicate.data);
        push_atom_bytes(&mut out, &self.object.data);
        out
    }

    /// Whether the predicate equals `target_predicate`.
    pub fn predicate_matches(&self, target_predicate: &SemanticAtom) -> (b: bool)
        ensures
            b == (self.predicate.data@ == target_predicate.data@),
    {
        SemanticAtom::compare(&self.predicate, target_predicate)
    }
}

impl Default for SemanticTriple {
    fn default() -> (t: Self)
        ensures
            t.subject.data@ == seq![0u64, 0u64, 0u64, 0u64],
            t.predicate.data@ == seq![0u64, 0u64, 0u64, 0u64],
            t.object.data@ == seq![0u64, 0u64, 0u64, 0u64],
    {
        SemanticTriple {
            subject: SemanticAtom::default(),
            predicate: SemanticAtom::default(),
            object: SemanticAtom::default(),
        }
    }
}

} // verus!
