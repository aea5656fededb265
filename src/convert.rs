use vstd::prelude::*;

use crate::genetic_code::{AminoAcid, Base, Codon};
use crate::notation::{amino_acid_item, base_item, codon_from_chars, codon_item};
use crate::sequence::SequenceItem;

verus! {

/// The characters of `s`, one by one.
pub(crate) fn chars_of(s: &str) -> (r: Vec<char>)
    ensures
        r@ == s@,
{
    broadcast use vstd::string::group_string_axioms;

    let mut r: Vec<char> = Vec::new();
    for c in it: s.chars()
        invariant
            it.seq() == s@,
            r@ == it.seq().take(it.index() as int),
    {
        r.push(c);
    }
    r
}

/// The `i`-th triplet of `s`.
pub open spec fn triplet(s: Seq<char>, i: int) -> Seq<char> {
    s.subrange(3 * i, 3 * i + 3)
}

/// Every character of `s` is an upper-case base letter.
pub open spec fn all_bases(s: Seq<char>) -> bool {
    forall|i: int| 0 <= i < s.len() ==> base_item(#[trigger] s[i]) is Present
}

/// Every character of `s` is an amino-acid letter or `*`, in either case.
pub open spec fn all_amino_acids(s: Seq<char>) -> bool {
    forall|i: int| 0 <= i < s.len() ==> amino_acid_item(#[trigger] s[i]) is Present
}

/// `s` has whole triplets only, each one of the 64 codons in upper case.
pub open spec fn all_codons(s: Seq<char>) -> bool {
    &&& s.len() % 3 == 0
    &&& forall|i: int| 0 <= i < s.len() / 3 ==> codon_item(#[trigger] triplet(s, i)) is Present
}

/// The bases of an ungapped sequence; fails on any other character.
pub fn str_to_bases(s: &str) -> (r: Result<Vec<Base>, ()>)
    ensures
        r is Ok <==> all_bases(s@),
        r matches Ok(v) ==> v@.len() == s@.len() && forall|i: int|
            0 <= i < s@.len() ==> base_item(s@[i]) == SequenceItem::<Base, ()>::Present(#[trigger] v@[i]),
{
    let chars = chars_of(s);
    let mut bases: Vec<Base> = Vec::new();
    let mut i: usize = 0;
    while i < chars.len()
        invariant
            chars@ == s@,
            i <= chars@.len(),
            bases@.len() == i,
            forall|j: int| 0 <= j < i ==> base_item(s@[j]) == SequenceItem::<Base, ()>::Present(#[trigger] bases@[j]),
        decreases chars@.len() - i,
    {
        match Base::from_char_(&chars[i]) {
            SequenceItem::Present(b) => bases.push(b),
            _ => return Err(()),
        }
        i += 1;
    }
    assert forall|i: int| 0 <= i < s@.len() implies base_item(#[trigger] s@[i]) is Present by {
        assert(base_item(s@[i]) == SequenceItem::<Base, ()>::Present(bases@[i]));
    }
    Ok(bases)
}

/// The amino acids of an ungapped protein sequence; fails on any other character.
pub fn str_to_amino_acids(s: &str) -> (r: Result<Vec<AminoAcid>, ()>)
    ensures
        r is Ok <==> all_amino_acids(s@),
        r matches Ok(v) ==> v@.len() == s@.len() && forall|i: int|
            0 <= i < s@.len() ==> amino_acid_item(s@[i]) == SequenceItem::<AminoAcid, ()>::Present(
                #[trigger] v@[i],
            ),
{
    let chars = chars_of(s);
    let mut acids: Vec<AminoAcid> = Vec::new();
    let mut i: usize = 0;
    while i < chars.len()
        invariant
            chars@ == s@,
            i <= chars@.len(),
            acids@.len() == i,
            forall|j: int|
                0 <= j < i ==> amino_acid_item(s@[j]) == SequenceItem::<AminoAcid, ()>::Present(
                    #[trigger] acids@[j],
                ),
        decreases chars@.len() - i,
    {
        match AminoAcid::from_one_char_(&chars[i]) {
            SequenceItem::Present(a) => acids.push(a),
            _ => return Err(()),
        }
        i += 1;
    }
    assert forall|i: int| 0 <= i < s@.len() implies amino_acid_item(#[trigger] s@[i]) is Present by {
        assert(amino_acid_item(s@[i]) == SequenceItem::<AminoAcid, ()>::Present(acids@[i]));
    }
    Ok(acids)
}

/// The codons of an ungapped coding sequence; fails when its length is not a
/// multiple of three or a triplet is not a codon.
pub fn str_to_codons(s: &str) -> (r: Result<Vec<Codon>, ()>)
    ensures
        r is Ok <==> all_codons(s@),
        r matches Ok(v) ==> v@.len() == s@.len() / 3 && forall|i: int|
            0 <= i < v@.len() ==> codon_item(triplet(s@, i)) == SequenceItem::<Codon, ()>::Present(
                #[trigger] v@[i],
            ),
{
    let chars = chars_of(s);
    if chars.len() % 3 != 0 {
        return Err(());
    }
    let len = chars.len();
    let n = len / 3;
    let mut codons: Vec<Codon> = Vec::new();
    let mut i: usize = 0;
    while i < n
        invariant
            chars@ == s@,
            len == chars@.len(),
            n == s@.len() / 3,
            s@.len() % 3 == 0,
            i <= n,
            codons@.len() == i,
            forall|j: int|
                0 <= j < i ==> codon_item(triplet(s@, j)) == SequenceItem::<Codon, ()>::Present(
                    #[trigger] codons@[j],
                ),
        decreases n - i,
    {
        assert(3 * i + 2 < len) by (nonlinear_arith)
            requires
                i < n,
                n == len / 3,
                len % 3 == 0,
        ;
        let item = codon_from_chars(chars[3 * i], chars[3 * i + 1], chars[3 * i + 2]);
        assert(triplet(s@, i as int) =~= seq![s@[3 * i], s@[3 * i + 1], s@[3 * i + 2]]);
        match item {
            SequenceItem::Present(c) => codons.push(c),
            _ => return Err(()),
        }
        i += 1;
    }
    assert forall|i: int| 0 <= i < s@.len() / 3 implies codon_item(#[trigger] triplet(s@, i)) is Present by {
        assert(codon_item(triplet(s@, i)) == SequenceItem::<Codon, ()>::Present(codons@[i]));
    }
    Ok(codons)
}

} // verus!
