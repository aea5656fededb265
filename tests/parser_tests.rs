use dnds::genetic_code::{AminoAcid, Base, Codon};
use dnds::parser::{
    aln_str_to_codons, keep_valid_sites, pairwise_aln_str_to_paired_amino_acids,
    pairwise_aln_str_to_paired_bases, pairwise_aln_str_to_paired_codons,
};
use dnds::sequence::{PwAlnItem, SequenceItem};

#[test]
fn aln_str_to_codons_len_9() {
    let s: &str = "ATGCGCTTT";
    let expected: Vec<SequenceItem<Codon, ()>> = vec![
        SequenceItem::Present(Codon::ATG),
        SequenceItem::Present(Codon::CGC),
        SequenceItem::Present(Codon::TTT),
    ];
    if let Ok(codons) = aln_str_to_codons(s) {
        assert_eq!(codons, expected);
    }
}

#[test]
fn aln_str_to_codons_len_8() {
    let s: &str = "ATGCGCTT";
    assert!(aln_str_to_codons(s).is_err())
}

#[test]
fn aln_str_to_codons_len_10() {
    let s: &str = "ATGCGCTTTG";
    assert!(aln_str_to_codons(s).is_err())
}

#[test]
fn aln_str_to_codons_len_0() {
    let s: &str = "";
    if let Ok(codons) = aln_str_to_codons(s) {
        assert_eq!(codons, vec![]);
    }
}

#[test]
fn pairwise_aln_str_to_paired_bases_ok() {
    let s1 = "ATG-A";
    let s2 = "AT-NA";
    let result = pairwise_aln_str_to_paired_bases(s1, s2).unwrap();
    let expected = vec![
        PwAlnItem(
            SequenceItem::Present(Base::A), 
            SequenceItem::Present(Base::A), 
            1
        ),
        PwAlnItem(
            SequenceItem::Present(Base::T), 
            SequenceItem::Present(Base::T), 
            2
        ),
        PwAlnItem(
            SequenceItem::Present(Base::G), 
            SequenceItem::Gap, 
            3
        ),
        PwAlnItem(
            SequenceItem::Gap, 
            SequenceItem::Unknown, 
            4
        ),
        PwAlnItem(
            SequenceItem::Present(Base::A), 
            SequenceItem::Present(Base::A), 
            5
        ),
    ];
    assert_eq!(result, expected);
}

#[test]
fn pairwise_aln_str_to_paired_amino_acids_ok() {
    let s1 = "M-GY*";
    let s2 = "MGGY*";
    let result = pairwise_aln_str_to_paired_amino_acids(s1, s2).unwrap();
    let expected = vec![
        PwAlnItem(
            SequenceItem::Present(AminoAcid::Met), 
            SequenceItem::Present(AminoAcid::Met), 
            1
        ),
        PwAlnItem(
            SequenceItem::Gap, 
            SequenceItem::Present(AminoAcid::Gly), 
            2
        ),
        PwAlnItem(
            SequenceItem::Present(AminoAcid::Gly), 
            SequenceItem::Present(AminoAcid::Gly), 
            3
        ),
        PwAlnItem(
            SequenceItem::Present(AminoAcid::Tyr), 
            SequenceItem::Present(AminoAcid::Tyr), 
            4
        ),
        PwAlnItem(
            SequenceItem::Present(AminoAcid::Stop), 
            SequenceItem::Present(AminoAcid::Stop), 
            5
        ),
    ];
    assert_eq!(result, expected);
}

#[test]
fn pairwise_aln_str_to_paired_codons_ok() {
    let s1 = "ATGATATTTTGA";
    let s2 = "ATG---TCTTGA";
    let result = pairwise_aln_str_to_paired_codons(s1, s2).unwrap();
    let expected = vec![
        PwAlnItem(
            SequenceItem::Present(Codon::ATG), 
            SequenceItem::Present(Codon::ATG), 
            1
        ),
        PwAlnItem(
            SequenceItem::Present(Codon::ATA), 
            SequenceItem::Gap, 
            2
        ),
        PwAlnItem(
            SequenceItem::Present(Codon::TTT), 
            SequenceItem::Present(Codon::TCT), 
            3
        ),
        PwAlnItem(
            SequenceItem::Present(Codon::TGA), 
            SequenceItem::Present(Codon::TGA), 
            4
        ),
    ];
    assert_eq!(result, expected);
}

#[test]
fn keep_valid_sites_amino_acid_ok() {
    let vec: Vec<PwAlnItem<AminoAcid, ()>> = vec![
        PwAlnItem(
            SequenceItem::Present(AminoAcid::Met), 
            SequenceItem::Present(AminoAcid::Met), 
            1
        ),
        PwAlnItem(
            SequenceItem::Gap, 
            SequenceItem::Present(AminoAcid::Gly), 
            2
        ),
        PwAlnItem(
            SequenceItem::Present(AminoAcid::Gly), 
            SequenceItem::Present(AminoAcid::Gly), 
            3
        ),
        PwAlnItem(
            SequenceItem::Present(AminoAcid::Tyr), 
            SequenceItem::Present(AminoAcid::Tyr), 
            4
        ),
        PwAlnItem(
            SequenceItem::Present(AminoAcid::Stop), 
            SequenceItem::Present(AminoAcid::Stop), 
            5
        ),
    ];
    let result = keep_valid_sites(vec);
    let expected: Vec<PwAlnItem<AminoAcid, ()>> = vec![
        PwAlnItem(
            SequenceItem::Present(AminoAcid::Met), 
            SequenceItem::Present(AminoAcid::Met), 
            1
        ),
        PwAlnItem(
            SequenceItem::Present(AminoAcid::Gly), 
            SequenceItem::Present(AminoAcid::Gly), 
            3
        ),
        PwAlnItem(
            SequenceItem::Present(AminoAcid::Tyr), 
            SequenceItem::Present(AminoAcid::Tyr), 
            4
        ),
        PwAlnItem(
            SequenceItem::Present(AminoAcid::Stop), 
            SequenceItem::Present(AminoAcid::Stop), 
            5
        ),
    ];
    // is stop amino acid "valid"??
    assert_eq!(result, expected);
}

#[test]
fn keep_valid_sites_codon_ok() {
    let vec: Vec<PwAlnItem<Codon, ()>> = vec![
        PwAlnItem(
            SequenceItem::Present(Codon::ATG), 
            SequenceItem::Present(Codon::ATG), 
            1
        ),
        PwAlnItem(
            SequenceItem::Present(Codon::ATA), 
            SequenceItem::Gap, 
            2
        ),
        PwAlnItem(
            SequenceItem::Present(Codon::TTT), 
            SequenceItem::Present(Codon::TCT), 
            3
        ),
        PwAlnItem(
            SequenceItem::Unknown, 
            SequenceItem::Present(Codon::TGA), 
            4
        ),
        PwAlnItem(
            SequenceItem::Present(Codon::TGA), 
            SequenceItem::Present(Codon::TGA), 
            5
        ),
    ];
    let result = keep_valid_sites(vec);
    let expected = vec![
        PwAlnItem(
            SequenceItem::Present(Codon::ATG), 
            SequenceItem::Present(Codon::ATG), 
            1
        ),
        PwAlnItem(
            SequenceItem::Present(Codon::TTT), 
            SequenceItem::Present(Codon::TCT), 
            3
        ),
        PwAlnItem(
            SequenceItem::Present(Codon::TGA), 
            SequenceItem::Present(Codon::TGA), 
            5
        ),
    ];
    // is stop amino acid "valid"??
    assert_eq!(result, expected);
}
