use vstd::prelude::*;

use crate::convert::{chars_of, triplet};
use crate::genetic_code::{AminoAcid, Base, Codon};
use crate::notation::{amino_acid_item, base_item, codon_from_chars, codon_item};
use crate::sequence::{both_present, PwAlnItem, SequenceItem};

verus! {

/// The columns whose two sides both hold a unit, in their order.
pub fn keep_valid_sites<T, E>(pw_vec: Vec<PwAlnItem<T, E>>) -> (r: Vec<PwAlnItem<T, E>>)
    ensures
        r@ == pw_vec@.filter(both_present()),
{
    let ghost all = pw_vec@;
    // Popping from the reversed columns hands them back in order.
    let mut reversed = reversed(pw_vec);
    let mut kept: Vec<PwAlnItem<T, E>> = Vec::new();
    while reversed.len() > 0
        invariant
            reversed@.len() <= all.len(),
            forall|j: int| 0 <= j < reversed@.len() ==> #[trigger] reversed@[j] == all[all.len() - 1 - j],
            kept@ == all.take(all.len() - reversed@.len()).filter(both_present()),
        decreases reversed@.len(),
    {
        let ghost i = all.len() - reversed@.len();
        let item = reversed.pop().unwrap();
        proof {
            reveal(Seq::filter);
            assert(all.take(i + 1).drop_last() =~= all.take(i));
            assert(item == all[i]);
        }
        if item.both_valid() {
            kept.push(item);
        }
    }
    assert(all.take(all.len() as int) =~= all);
    kept
}

/// Each character of an aligned nucleotide sequence, read as a base, a gap,
/// an unknown base or an error.
pub fn aln_str_to_bases(s: &str) -> (r: Result<Vec<SequenceItem<Base, ()>>, ()>)
    ensures
        r matches Ok(v) && v@.len() == s@.len() && forall|i: int|
            0 <= i < s@.len() ==> #[trigger] v@[i] == base_item(s@[i]),
{
    let chars = chars_of(s);
    let mut items: Vec<SequenceItem<Base, ()>> = Vec::new();
    let mut i: usize = 0;
    while i < chars.len()
        invariant
            chars@ == s@,
            i <= chars@.len(),
            items@.len() == i,
            forall|j: int| 0 <= j < i ==> #[trigger] items@[j] == base_item(s@[j]),
        decreases chars@.len() - i,
    {
        items.push(Base::from_char_(&chars[i]));
        i += 1;
    }
    Ok(items)
}

/// Each character of an aligned protein sequence, read as an amino acid, a
/// gap, an unknown amino acid or an error.
pub fn aln_str_to_amino_acids(s: &str) -> (r: Result<Vec<SequenceItem<AminoAcid, ()>>, ()>)
    ensures
        r matches Ok(v) && v@.len() == s@.len() && forall|i: int|
            0 <= i < s@.len() ==> #[trigger] v@[i] == amino_acid_item(s@[i]),
{
    let chars = chars_of(s);
    let mut items: Vec<SequenceItem<AminoAcid, ()>> = Vec::new();
    let mut i: usize = 0;
    while i < chars.len()
        invariant
            chars@ == s@,
            i <= chars@.len(),
            items@.len() == i,
            forall|j: int| 0 <= j < i ==> #[trigger] items@[j] == amino_acid_item(s@[j]),
        decreases chars@.len() - i,
    {
        items.push(AminoAcid::from_one_char_(&chars[i]));
        i += 1;
    }
    Ok(items)
}

/// Each triplet of an aligned coding sequence, read as a codon, a gap, an
/// unknown codon or an error; fails when the length is not a multiple of three.
pub fn aln_str_to_codons(s: &str) -> (r: Result<Vec<SequenceItem<Codon, ()>>, ()>)
    ensures
        r is Err <==> s@.len() % 3 != 0,
        r matches Ok(v) ==> v@.len() == s@.len() / 3 && forall|i: int|
            0 <= i < v@.len() ==> #[trigger] v@[i] == codon_item(triplet(s@, i)),
{
    let chars = chars_of(s);
    let len = chars.len();
    if len % 3 != 0 {
        return Err(());
    }
    let n = len / 3;
    let mut items: Vec<SequenceItem<Codon, ()>> = Vec::new();
    let mut i: usize = 0;
    while i < n
        invariant
            chars@ == s@,
            len == chars@.len(),
            n == len / 3,
            len % 3 == 0,
            i <= n,
            items@.len() == i,
            forall|j: int| 0 <= j < i ==> #[trigger] items@[j] == codon_item(triplet(s@, j)),
        decreases n - i,
    {
        assert(3 * i + 2 < len) by (nonlinear_arith)
            requires
                i < n,
                n == len / 3,
                len % 3 == 0,
        ;
        assert(triplet(s@, i as int) =~= seq![s@[3 * i], s@[3 * i + 1], s@[3 * i + 2]]);
        items.push(codon_from_chars(chars[3 * i], chars[3 * i + 1], chars[3 * i + 2]));
        i += 1;
    }
    Ok(items)
}

/// The items of `v` in reverse order.
fn reversed<A>(v: Vec<A>) -> (r: Vec<A>)
    ensures
        r@.len() == v@.len(),
        forall|j: int| 0 <= j < r@.len() ==> #[trigger] r@[j] == v@[v@.len() - 1 - j],
{
    let ghost all = v@;
    let mut rest = v;
    let mut out: Vec<A> = Vec::new();
    while rest.len() > 0
        invariant
            rest@ == all.take(rest@.len() as int),
            rest@.len() + out@.len() == all.len(),
            forall|j: int| 0 <= j < out@.len() ==> #[trigger] out@[j] == all[all.len() - 1 - j],
        decreases rest@.len(),
    {
        let ghost n = rest@.len();
        let item = rest.pop().unwrap();
        assert(all.take(n - 1) =~= all.take(n as int).drop_last());
        out.push(item);
    }
    out
}

/// Pairs two aligned sequences column by column, numbering the columns from 1;
/// the longer sequence's tail is dropped.
pub fn pairwise_aln_vec_to_paired<T, E>(vec1: Vec<SequenceItem<T, E>>, vec2: Vec<SequenceItem<T, E>>) -> (r: Result<Vec<PwAlnItem<T, E>>, ()>)
    ensures
        r matches Ok(v) && v@.len() == (if vec1@.len() <= vec2@.len() { vec1@.len() } else { vec2@.len() })
            && forall|i: int|
            0 <= i < v@.len() ==> #[trigger] v@[i] == PwAlnItem(vec1@[i], vec2@[i], (i + 1) as usize),
{
    let n = if vec1.len() <= vec2.len() { vec1.len() } else { vec2.len() };
    let ghost first = vec1@;
    let ghost second = vec2@;
    let mut rest1 = reversed(vec1);
    let mut rest2 = reversed(vec2);
    let mut paired: Vec<PwAlnItem<T, E>> = Vec::new();
    let mut i: usize = 0;
    while i < n
        invariant
            n <= first.len(),
            n <= second.len(),
            i <= n,
            rest1@.len() == first.len() - i,
            rest2@.len() == second.len() - i,
            forall|j: int| 0 <= j < rest1@.len() ==> #[trigger] rest1@[j] == first[first.len() - 1 - j],
            forall|j: int| 0 <= j < rest2@.len() ==> #[trigger] rest2@[j] == second[second.len() - 1 - j],
            paired@.len() == i,
            forall|j: int|
                0 <= j < i ==> #[trigger] paired@[j] == PwAlnItem(first[j], second[j], (j + 1) as usize),
        decreases n - i,
    {
        let a = rest1.pop().unwrap();
        let b = rest2.pop().unwrap();
        paired.push(PwAlnItem(a, b, i + 1));
        i += 1;
    }
    Ok(paired)
}

pub fn pairwise_aln_str_to_paired_bases(s1: &str, s2: &str) -> (r: Result<Vec<PwAlnItem<Base, ()>>, ()>)
    ensures
        r matches Ok(v) && v@.len() == (if s1@.len() <= s2@.len() { s1@.len() } else { s2@.len() })
            && forall|i: int|
            0 <= i < v@.len() ==> #[trigger] v@[i] == PwAlnItem(base_item(s1@[i]), base_item(s2@[i]), (i + 1) as usize),
{
    let first = aln_str_to_bases(s1)?;
    let second = aln_str_to_bases(s2)?;
    pairwise_aln_vec_to_paired(first, second)
}

pub fn pairwise_aln_str_to_paired_amino_acids(s1: &str, s2: &str) -> (r: Result<Vec<PwAlnItem<AminoAcid, ()>>, ()>)
    ensures
        r matches Ok(v) && v@.len() == (if s1@.len() <= s2@.len() { s1@.len() } else { s2@.len() })
            && forall|i: int|
            0 <= i < v@.len() ==> #[trigger] v@[i] == PwAlnItem(
                amino_acid_item(s1@[i]),
                amino_acid_item(s2@[i]),
                (i + 1) as usize,
            ),
{
    let first = aln_str_to_amino_acids(s1)?;
    let second = aln_str_to_amino_acids(s2)?;
    pairwise_aln_vec_to_paired(first, second)
}

/// Pairs two aligned coding sequences codon by codon; fails when either length
/// is not a multiple of three.
pub fn pairwise_aln_str_to_paired_codons(s1: &str, s2: &str) -> (r: Result<Vec<PwAlnItem<Codon, ()>>, ()>)
    ensures
        r is Err <==> (s1@.len() % 3 != 0 || s2@.len() % 3 != 0),
        r matches Ok(v) ==> v@.len() == (if s1@.len() <= s2@.len() { s1@.len() / 3 } else { s2@.len() / 3 })
            && forall|i: int|
            0 <= i < v@.len() ==> #[trigger] v@[i] == PwAlnItem(
                codon_item(triplet(s1@, i)),
                codon_item(triplet(s2@, i)),
                (i + 1) as usize,
            ),
{
    let first = aln_str_to_codons(s1)?;
    let second = aln_str_to_codons(s2)?;
    proof {
        assert(s1@.len() <= s2@.len() ==> s1@.len() / 3 <= s2@.len() / 3) by (nonlinear_arith);
        assert(s1@.len() > s2@.len() ==> s1@.len() / 3 >= s2@.len() / 3) by (nonlinear_arith);
    }
    pairwise_aln_vec_to_paired(first, second)
}

} // verus!
