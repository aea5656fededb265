use dnds::convert::{str_to_amino_acids, str_to_bases};
use dnds::count::{
    count_differences, count_sites, count_sites_single_codon, count_total_differences,
    count_total_sites, StopCodonError, SynNonsyn, COUNT_SCALE,
};
use dnds::genetic_code::{AminoAcid, Base, Codon};
use dnds::parser::{aln_str_to_bases, pairwise_aln_vec_to_paired};
use dnds::sequence::{PwAlnItem, SequenceItem, WrappedSequenceItem};

fn all_codons() -> Vec<Codon> {
    let bases = [Base::A, Base::C, Base::G, Base::T];
    let mut codons = Vec::new();
    for b0 in bases {
        for b1 in bases {
            for b2 in bases {
                codons.push(Codon::from_bases_(b0, b1, b2).unwrap());
            }
        }
    }
    codons
}

fn column(c1: Codon, c2: Codon, position: usize) -> PwAlnItem<Codon, ()> {
    PwAlnItem(SequenceItem::Present(c1), SequenceItem::Present(c2), position)
}

#[test]
fn every_codon_is_distinct_and_stop_codons_are_three() {
    let codons = all_codons();
    assert_eq!(codons.len(), 64);
    for i in 0..64 {
        for j in 0..i {
            assert_ne!(codons[i], codons[j]);
        }
    }
    let stops: Vec<Codon> = codons.iter().copied().filter(|c| c.is_stop_codon_()).collect();
    assert_eq!(stops, vec![Codon::TAA, Codon::TAG, Codon::TGA]);
    assert!(Codon::ATG.is_start_codon_());
    assert!(!Codon::ATA.is_start_codon_());
}

#[test]
fn site_shares_sum_to_three_for_every_codon() {
    for c in all_codons() {
        let v = count_sites_single_codon(&c);
        assert_eq!(v.syn + v.nonsyn, 3 * COUNT_SCALE);
    }
}

#[test]
fn site_counts_of_a_codon_with_itself() {
    for c in all_codons() {
        if c.is_stop_codon_() {
            assert_eq!(count_sites(&c, &c), Err(StopCodonError));
        } else {
            assert_eq!(count_sites(&c, &c), Ok(count_sites_single_codon(&c)));
        }
    }
}

#[test]
fn difference_counts_of_a_codon_with_itself() {
    for c in all_codons() {
        assert_eq!(count_differences(&c, &c), Ok(SynNonsyn { syn: 0, nonsyn: 0 }));
    }
}

#[test]
fn one_change_gives_the_direct_step() {
    let codons = all_codons();
    for a in &codons {
        for b in &codons {
            if a.count_base_changes_(b) == 1 && !a.is_stop_codon_() && !b.is_stop_codon_() {
                assert_eq!(a.list_mutation_pathways_(b), vec![vec![*a, *b]]);
                let v = count_differences(a, b).unwrap();
                assert_eq!(v.syn + v.nonsyn, COUNT_SCALE);
            }
        }
    }
}

#[test]
fn pathway_counts_follow_the_changes() {
    assert_eq!(Codon::TTT.list_mutation_pathways_(&Codon::ACT).len(), 2);
    assert_eq!(Codon::TTT.list_mutation_pathways_(&Codon::GGG).len(), 6);
    assert_eq!(Codon::CCT.count_base_changes_(&Codon::CAG), 2);
    assert_eq!(Codon::TTT.count_base_changes_(&Codon::GGG), 3);
    assert_eq!(Codon::TTT.count_base_changes_(&Codon::TTT), 0);
}

#[test]
fn no_pathways_from_or_to_stop_codons_or_between_equal_codons() {
    for c in all_codons() {
        assert!(Codon::TAA.list_mutation_pathways_(&c).is_empty());
        assert!(c.list_mutation_pathways_(&Codon::TGA).is_empty());
        assert!(c.list_mutation_pathways_(&c).is_empty());
    }
}

#[test]
fn differences_are_defined_unless_a_stop_codon_is_involved() {
    let codons = all_codons();
    for a in &codons {
        for b in &codons {
            let r = count_differences(a, b);
            if a != b && (a.is_stop_codon_() || b.is_stop_codon_()) {
                assert_eq!(r, Err(StopCodonError));
            } else {
                let v = r.unwrap();
                assert_eq!(v.syn + v.nonsyn, COUNT_SCALE * a.count_base_changes_(b) as u64);
            }
        }
    }
}

#[test]
fn exact_site_counts() {
    assert_eq!(count_sites_single_codon(&Codon::TTT), SynNonsyn { syn: 1680, nonsyn: 13440 });
    assert_eq!(count_sites_single_codon(&Codon::TTG), SynNonsyn { syn: 3780, nonsyn: 11340 });
    assert_eq!(count_sites(&Codon::TTT, &Codon::TTG), Ok(SynNonsyn { syn: 2730, nonsyn: 12390 }));
}

#[test]
fn differences_avoid_a_stop_codon_intermediate() {
    assert_eq!(
        Codon::AAG.list_mutation_pathways_(&Codon::TTG),
        vec![vec![Codon::AAG, Codon::ATG, Codon::TTG]]
    );
    assert_eq!(count_differences(&Codon::AAG, &Codon::TTG), Ok(SynNonsyn { syn: 0, nonsyn: 2 * COUNT_SCALE }));
}

#[test]
fn stop_codons_fail_the_counts() {
    assert_eq!(count_sites(&Codon::TAA, &Codon::TTT), Err(StopCodonError));
    assert_eq!(count_sites(&Codon::TTT, &Codon::TGA), Err(StopCodonError));
    assert_eq!(count_differences(&Codon::ATG, &Codon::TAG), Err(StopCodonError));
    let vec = vec![column(Codon::ATG, Codon::ATG, 1), column(Codon::TGA, Codon::TGA, 2)];
    assert_eq!(count_total_sites(vec.clone()), Err(StopCodonError));
    assert_eq!(count_total_differences(vec), Ok(SynNonsyn { syn: 0, nonsyn: 0 }));
    let vec = vec![column(Codon::ATG, Codon::ATG, 1), column(Codon::TGA, Codon::TGG, 2)];
    assert_eq!(count_total_differences(vec), Err(StopCodonError));
}

#[test]
fn totals_skip_gaps_and_unknowns_and_of_nothing_are_zero() {
    let empty: Vec<PwAlnItem<Codon, ()>> = vec![];
    assert_eq!(count_total_sites(empty.clone()), Ok(SynNonsyn { syn: 0, nonsyn: 0 }));
    assert_eq!(count_total_differences(empty), Ok(SynNonsyn { syn: 0, nonsyn: 0 }));
    let vec = vec![
        column(Codon::CCT, Codon::CAG, 1),
        PwAlnItem(SequenceItem::Present(Codon::TAA), SequenceItem::Gap, 2),
        PwAlnItem(SequenceItem::Unknown, SequenceItem::Present(Codon::TGA), 3),
        PwAlnItem(SequenceItem::Error(()), SequenceItem::Present(Codon::TTT), 4),
    ];
    assert_eq!(count_total_differences(vec), Ok(SynNonsyn { syn: COUNT_SCALE / 2, nonsyn: 3 * COUNT_SCALE / 2 }));
}

#[test]
fn items_as_text() {
    assert_eq!(SequenceItem::<Base, ()>::Present(Base::G).to_str(), "G");
    assert_eq!(SequenceItem::<Base, ()>::Gap.to_str(), "-");
    assert_eq!(SequenceItem::<Base, ()>::Unknown.to_str(), "N");
    assert_eq!(SequenceItem::<Base, ()>::Error(()).to_str(), "!");
    assert_eq!(SequenceItem::<AminoAcid, ()>::Present(AminoAcid::Trp).to_str(), "W");
    assert_eq!(SequenceItem::<AminoAcid, ()>::Unknown.to_str(), "X");
    assert_eq!(SequenceItem::<Codon, ()>::Present(Codon::GAT).to_str(), "GAT");
    assert_eq!(SequenceItem::<Codon, ()>::Gap.to_str(), "---");
    assert_eq!(SequenceItem::<Codon, ()>::Unknown.to_str(), "NNN");
    assert_eq!(SequenceItem::<Codon, ()>::Error(()).to_str(), "!!!");
    assert_eq!(SequenceItem::<Codon, ()>::Present(Codon::GAT).unwrap(), Ok(Codon::GAT));
    assert_eq!(SequenceItem::<Codon, ()>::Gap.unwrap(), Err(()));
}

#[test]
fn letters_ignore_case_where_the_format_allows() {
    assert_eq!(Base::from_char_(&'G'), SequenceItem::Present(Base::G));
    assert_eq!(Base::from_char_(&'g'), SequenceItem::Error(()));
    assert_eq!(Base::from_char_(&'n'), SequenceItem::Unknown);
    assert_eq!(Base::from_char_(&'-'), SequenceItem::Gap);
    assert_eq!(Base::from_char_(&'U'), SequenceItem::Error(()));
    assert_eq!(AminoAcid::from_one_char_(&'w'), SequenceItem::Present(AminoAcid::Trp));
    assert_eq!(AminoAcid::from_one_char_(&'x'), SequenceItem::Unknown);
    assert_eq!(AminoAcid::from_three_str_("tER"), SequenceItem::Present(AminoAcid::Stop));
    assert_eq!(AminoAcid::from_three_str_("UNK"), SequenceItem::Unknown);
    assert_eq!(AminoAcid::from_three_str_("Gap"), SequenceItem::Gap);
    assert_eq!(AminoAcid::from_three_str_("Alan"), SequenceItem::Error(()));
    assert_eq!(Codon::from_str_("atg"), SequenceItem::Error(()));
    assert_eq!(Codon::from_str_("NNN"), SequenceItem::Unknown);
    assert_eq!(Codon::from_str_("---"), SequenceItem::Gap);
    assert_eq!(Codon::from_str_("AT"), SequenceItem::Error(()));
    assert_eq!(*Base::T.to_char_(), 'T');
    assert_eq!(Codon::CAT.to_bases_(), [Base::C, Base::A, Base::T]);
    assert_eq!(Codon::CAT.translate_(), Some(AminoAcid::His));
    assert_eq!(Codon::TAG.translate_(), None);
}

#[test]
fn ungapped_text_fails_on_other_characters() {
    assert_eq!(str_to_bases("ACGT"), Ok(vec![Base::A, Base::C, Base::G, Base::T]));
    assert_eq!(str_to_bases("acgT"), Err(()));
    assert_eq!(str_to_bases("AC-T"), Err(()));
    assert_eq!(str_to_amino_acids("mk*"), Ok(vec![AminoAcid::Met, AminoAcid::Lys, AminoAcid::Stop]));
    assert_eq!(str_to_amino_acids("MKZ"), Err(()));
}

#[test]
fn pairing_numbers_columns_and_drops_the_longer_tail() {
    let first = aln_str_to_bases("ACGT").unwrap();
    let second = aln_str_to_bases("A-").unwrap();
    let paired = pairwise_aln_vec_to_paired(first, second).unwrap();
    assert_eq!(
        paired,
        vec![
            PwAlnItem(SequenceItem::Present(Base::A), SequenceItem::Present(Base::A), 1),
            PwAlnItem(SequenceItem::Present(Base::C), SequenceItem::Gap, 2),
        ]
    );
    assert!(paired[0].both_valid() && paired[0].any_valid());
    assert!(!paired[1].both_valid() && paired[1].any_valid() && paired[1].any_gap());
    assert!(!paired[1].both_gap() && !paired[1].any_unknown() && !paired[1].both_unknown());
    assert!(!paired[1].any_error() && !paired[1].both_error());
}

#[test]
fn back_translation_of_stop_and_every_codon_translates_back() {
    assert_eq!(AminoAcid::Stop.backtranslate_(), vec![Codon::TAG, Codon::TGA, Codon::TAA]);
    for c in all_codons() {
        let aa = c.translate_().unwrap_or(AminoAcid::Stop);
        assert!(aa.backtranslate_().contains(&c));
    }
}
