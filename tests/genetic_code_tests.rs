use dnds::genetic_code::{AminoAcid, Codon};
use dnds::sequence::WrappedSequenceItem;

#[test]
fn amino_acid_to_three_str() {
    let test_vec: Vec<(AminoAcid, &str)> = vec![
        (AminoAcid::Ala, "Ala"),
        (AminoAcid::Arg, "Arg"),
        (AminoAcid::Asn, "Asn"),
        (AminoAcid::Asp, "Asp"),
        (AminoAcid::Cys, "Cys"),
        (AminoAcid::Glu, "Glu"),
        (AminoAcid::Gln, "Gln"),
        (AminoAcid::Gly, "Gly"),
        (AminoAcid::His, "His"),
        (AminoAcid::Ile, "Ile"),
        (AminoAcid::Leu, "Leu"),
        (AminoAcid::Lys, "Lys"),
        (AminoAcid::Met, "Met"),
        (AminoAcid::Phe, "Phe"),
        (AminoAcid::Pro, "Pro"),
        (AminoAcid::Ser, "Ser"),
        (AminoAcid::Thr, "Thr"),
        (AminoAcid::Trp, "Trp"),
        (AminoAcid::Tyr, "Tyr"),
        (AminoAcid::Val, "Val"),
    ];
    for (aa, aa_str) in test_vec {
        let result = aa.to_three_str_();
        assert_eq!(result, aa_str)
    }
}

#[test]
fn amino_acid_to_one_char() {
    let test_vec: Vec<(AminoAcid, char)> = vec![
        (AminoAcid::Ala, 'A'),
        (AminoAcid::Arg, 'R'),
        (AminoAcid::Asn, 'N'),
        (AminoAcid::Asp, 'D'),
        (AminoAcid::Cys, 'C'),
        (AminoAcid::Glu, 'E'),
        (AminoAcid::Gln, 'Q'),
        (AminoAcid::Gly, 'G'),
        (AminoAcid::His, 'H'),
        (AminoAcid::Ile, 'I'),
        (AminoAcid::Leu, 'L'),
        (AminoAcid::Lys, 'K'),
        (AminoAcid::Met, 'M'),
        (AminoAcid::Phe, 'F'),
        (AminoAcid::Pro, 'P'),
        (AminoAcid::Ser, 'S'),
        (AminoAcid::Thr, 'T'),
        (AminoAcid::Trp, 'W'),
        (AminoAcid::Tyr, 'Y'),
        (AminoAcid::Val, 'V'),
    ];
    for (aa, aa_char) in test_vec {
        let result = aa.to_one_char_();
        assert_eq!(result, &aa_char)
    }        
}

#[test]
fn amino_acid_from_three_str() {
    let test_vec: Vec<(AminoAcid, &str)> = vec![
        (AminoAcid::Ala, "Ala"),
        (AminoAcid::Arg, "Arg"),
        (AminoAcid::Asn, "Asn"),
        (AminoAcid::Asp, "Asp"),
        (AminoAcid::Cys, "Cys"),
        (AminoAcid::Glu, "Glu"),
        (AminoAcid::Gln, "Gln"),
        (AminoAcid::Gly, "Gly"),
        (AminoAcid::His, "His"),
        (AminoAcid::Ile, "Ile"),
        (AminoAcid::Leu, "Leu"),
        (AminoAcid::Lys, "Lys"),
        (AminoAcid::Met, "Met"),
        (AminoAcid::Phe, "Phe"),
        (AminoAcid::Pro, "Pro"),
        (AminoAcid::Ser, "Ser"),
        (AminoAcid::Thr, "Thr"),
        (AminoAcid::Trp, "Trp"),
        (AminoAcid::Tyr, "Tyr"),
        (AminoAcid::Val, "Val"),
        (AminoAcid::Stop, "Ter"),
    ];
    for (aa, aa_str) in test_vec {
        let result = AminoAcid::from_three_str_(aa_str).unwrap().unwrap();
        assert_eq!(result, aa)
    }
    
    // When error
    let result = AminoAcid::from_three_str_("ASD").unwrap();
    assert_eq!(result.is_err(), true)
}

#[test]
fn amino_acid_from_one_str() {
    let test_vec: Vec<(AminoAcid, char)> = vec![
        (AminoAcid::Ala, 'A'),
        (AminoAcid::Arg, 'R'),
        (AminoAcid::Asn, 'N'),
        (AminoAcid::Asp, 'D'),
        (AminoAcid::Cys, 'C'),
        (AminoAcid::Glu, 'E'),
        (AminoAcid::Gln, 'Q'),
        (AminoAcid::Gly, 'G'),
        (AminoAcid::His, 'H'),
        (AminoAcid::Ile, 'I'),
        (AminoAcid::Leu, 'L'),
        (AminoAcid::Lys, 'K'),
        (AminoAcid::Met, 'M'),
        (AminoAcid::Phe, 'F'),
        (AminoAcid::Pro, 'P'),
        (AminoAcid::Ser, 'S'),
        (AminoAcid::Thr, 'T'),
        (AminoAcid::Trp, 'W'),
        (AminoAcid::Tyr, 'Y'),
        (AminoAcid::Val, 'V'),
        (AminoAcid::Stop, '*'),
    ];
    for (aa, aa_char) in test_vec {
        let result = AminoAcid::from_one_char_(&aa_char).unwrap().unwrap();
        assert_eq!(result, aa)
    }
    
    // When error
    let result = AminoAcid::from_one_char_(&'@').unwrap();
    assert_eq!(result.is_err(), true)
}

#[test]
fn amino_acid_backtranslate_single() {
    let aa = AminoAcid::Met;
    assert_eq!(aa.backtranslate_(), vec![Codon::ATG]);
}

#[test]
fn amino_acid_backtranslate_twofold() {
    let aa = AminoAcid::Cys;
    assert_eq!(aa.backtranslate_(), vec![Codon::TGC, Codon::TGT]);
}

#[test]
fn amino_acid_backtranslate_fourfold() {
    let aa = AminoAcid::Ala;
    assert_eq!(aa.backtranslate_(), vec![Codon::GCA, Codon::GCC, Codon::GCG, Codon::GCT]);
}

#[test]
fn amino_acid_backtranslate_sixfold() {
    let aa = AminoAcid::Leu;
    assert_eq!(aa.backtranslate_(), vec![Codon::CTA, Codon::CTC, Codon::CTG, Codon::CTT, Codon::TTA, Codon::TTG]);
}

#[test]
fn codon_to_str() {
    let test_vec: Vec<(Codon, &str)> = vec![
        (Codon::AAA, "AAA"),
        (Codon::AAC, "AAC"),
        (Codon::AAG, "AAG"),
        (Codon::AAT, "AAT"),
        (Codon::ACA, "ACA"),
        (Codon::ACC, "ACC"),
        (Codon::ACG, "ACG"),
        (Codon::ACT, "ACT"),
        (Codon::AGA, "AGA"),
        (Codon::AGC, "AGC"),
        (Codon::AGG, "AGG"),
        (Codon::AGT, "AGT"),
        (Codon::ATA, "ATA"),
        (Codon::ATC, "ATC"),
        (Codon::ATG, "ATG"),
        (Codon::ATT, "ATT"),
        (Codon::CAA, "CAA"),
        (Codon::CAC, "CAC"),
        (Codon::CAG, "CAG"),
        (Codon::CAT, "CAT"),
        (Codon::CCA, "CCA"),
        (Codon::CCC, "CCC"),
        (Codon::CCG, "CCG"),
        (Codon::CCT, "CCT"),
        (Codon::CGA, "CGA"),
        (Codon::CGC, "CGC"),
        (Codon::CGG, "CGG"),
        (Codon::CGT, "CGT"),
        (Codon::CTA, "CTA"),
        (Codon::CTC, "CTC"),
        (Codon::CTG, "CTG"),
        (Codon::CTT, "CTT"),
        (Codon::GAA, "GAA"),
        (Codon::GAC, "GAC"),
        (Codon::GAG, "GAG"),
        (Codon::GAT, "GAT"),
        (Codon::GCA, "GCA"),
        (Codon::GCC, "GCC"),
        (Codon::GCG, "GCG"),
        (Codon::GCT, "GCT"),
        (Codon::GGA, "GGA"),
        (Codon::GGC, "GGC"),
        (Codon::GGG, "GGG"),
        (Codon::GGT, "GGT"),
        (Codon::GTA, "GTA"),
        (Codon::GTC, "GTC"),
        (Codon::GTG, "GTG"),
        (Codon::GTT, "GTT"),
        (Codon::TAA, "TAA"),
        (Codon::TAC, "TAC"),
        (Codon::TAG, "TAG"),
        (Codon::TAT, "TAT"),
        (Codon::TCA, "TCA"),
        (Codon::TCC, "TCC"),
        (Codon::TCG, "TCG"),
        (Codon::TCT, "TCT"),
        (Codon::TGA, "TGA"),
        (Codon::TGC, "TGC"),
        (Codon::TGG, "TGG"),
        (Codon::TGT, "TGT"),
        (Codon::TTA, "TTA"),
        (Codon::TTC, "TTC"),
        (Codon::TTG, "TTG"),
        (Codon::TTT, "TTT"),
    ];
    for (codon, codon_str) in test_vec {
        let result = codon.to_str_();
        assert_eq!(result, codon_str)
    }
}

#[test]
fn codon_from_str() {
    let test_vec: Vec<(Codon, &str)> = vec![
        (Codon::AAA, "AAA"),
        (Codon::AAC, "AAC"),
        (Codon::AAG, "AAG"),
        (Codon::AAT, "AAT"),
        (Codon::ACA, "ACA"),
        (Codon::ACC, "ACC"),
        (Codon::ACG, "ACG"),
        (Codon::ACT, "ACT"),
        (Codon::AGA, "AGA"),
        (Codon::AGC, "AGC"),
        (Codon::AGG, "AGG"),
        (Codon::AGT, "AGT"),
        (Codon::ATA, "ATA"),
        (Codon::ATC, "ATC"),
        (Codon::ATG, "ATG"),
        (Codon::ATT, "ATT"),
        (Codon::CAA, "CAA"),
        (Codon::CAC, "CAC"),
        (Codon::CAG, "CAG"),
        (Codon::CAT, "CAT"),
        (Codon::CCA, "CCA"),
        (Codon::CCC, "CCC"),
        (Codon::CCG, "CCG"),
        (Codon::CCT, "CCT"),
        (Codon::CGA, "CGA"),
        (Codon::CGC, "CGC"),
        (Codon::CGG, "CGG"),
        (Codon::CGT, "CGT"),
        (Codon::CTA, "CTA"),
        (Codon::CTC, "CTC"),
        (Codon::CTG, "CTG"),
        (Codon::CTT, "CTT"),
        (Codon::GAA, "GAA"),
        (Codon::GAC, "GAC"),
        (Codon::GAG, "GAG"),
        (Codon::GAT, "GAT"),
        (Codon::GCA, "GCA"),
        (Codon::GCC, "GCC"),
        (Codon::GCG, "GCG"),
        (Codon::GCT, "GCT"),
        (Codon::GGA, "GGA"),
        (Codon::GGC, "GGC"),
        (Codon::GGG, "GGG"),
        (Codon::GGT, "GGT"),
        (Codon::GTA, "GTA"),
        (Codon::GTC, "GTC"),
        (Codon::GTG, "GTG"),
        (Codon::GTT, "GTT"),
        (Codon::TAA, "TAA"),
        (Codon::TAC, "TAC"),
        (Codon::TAG, "TAG"),
        (Codon::TAT, "TAT"),
        (Codon::TCA, "TCA"),
        (Codon::TCC, "TCC"),
        (Codon::TCG, "TCG"),
        (Codon::TCT, "TCT"),
        (Codon::TGA, "TGA"),
        (Codon::TGC, "TGC"),
        (Codon::TGG, "TGG"),
        (Codon::TGT, "TGT"),
        (Codon::TTA, "TTA"),
        (Codon::TTC, "TTC"),
        (Codon::TTG, "TTG"),
        (Codon::TTT, "TTT"),
    ];
    for (codon, codon_str) in test_vec {
        let result = Codon::from_str_(codon_str).unwrap().unwrap();
        assert_eq!(result, codon)
    }
    
    // When error
    let result = Codon::from_str_("QWE").unwrap();
    assert_eq!(result.is_err(), true)
}

#[test]
fn codon_generate_mutation_pathways_same() {
    let codon1 = Codon::ATG;
    let codon2 = Codon::ATG;
    let pathways = codon1.list_mutation_pathways_(&codon2);
    let expected: Vec<Vec<Codon>> = vec![];
    assert_eq!(pathways, expected);
}

#[test]
fn codon_generate_mutation_pathways_one_change() {
    let test_list: [(Codon, Codon); 3] = [
        (Codon::TTT, Codon::CTT),
        (Codon::TTT, Codon::TAT),
        (Codon::TTT, Codon::TTG),
    ];
    for (codon1, codon2) in test_list {
        let pathways = codon1.list_mutation_pathways_(&codon2);
        let expected: Vec<Vec<Codon>> = vec![vec![codon1, codon2]];
        assert_eq!(pathways, expected);
    }
}

#[test]
fn codon_generate_mutation_pathways_two_changes() {
    let test_list: [(Codon, Codon); 3] = [
        (Codon::TTT, Codon::ACT),
        (Codon::TTT, Codon::TCG),
        (Codon::TTT, Codon::ATG),
    ];
    let result_list: [Vec<Vec<Codon>>; 3] = [
        vec![
            vec![Codon::TTT, Codon::ATT, Codon::ACT],
            vec![Codon::TTT, Codon::TCT, Codon::ACT],
        ],
        vec![
            vec![Codon::TTT, Codon::TCT, Codon::TCG],
            vec![Codon::TTT, Codon::TTG, Codon::TCG],
        ],
        vec![
            vec![Codon::TTT, Codon::ATT, Codon::ATG],
            vec![Codon::TTT, Codon::TTG, Codon::ATG],
        ],
    ];
    for (i, (codon1, codon2)) in test_list.into_iter().enumerate() {
        let pathways = codon1.list_mutation_pathways_(&codon2);
        let expected: Vec<Vec<Codon>> = result_list[i].clone();
        assert_eq!(pathways, expected);
    }
}

#[test]
fn codon_generate_mutation_pathways_three_changes() {
    let result: Vec<Vec<Codon>> = vec![
        vec![Codon::TTT, Codon::GTT, Codon::GGT, Codon::GGG],
        vec![Codon::TTT, Codon::TTG, Codon::TGG, Codon::GGG],
        vec![Codon::TTT, Codon::TGT, Codon::TGG, Codon::GGG],
        vec![Codon::TTT, Codon::GTT, Codon::GTG, Codon::GGG],
        vec![Codon::TTT, Codon::TTG, Codon::GTG, Codon::GGG],
        vec![Codon::TTT, Codon::TGT, Codon::GGT, Codon::GGG],
    ];
    let (codon1, codon2) = (Codon::TTT, Codon::GGG);
    let pathways = codon1.list_mutation_pathways_(&codon2);
    let expected: Vec<Vec<Codon>> = result;
    assert_eq!(pathways, expected);
    
}

#[test]
fn codon_generate_mutation_pathways_stop_codon_final_result() {
    let (codon1, codon2) = (Codon::ATG, Codon::TAG);
    let expected: Vec<Vec<Codon>> = vec![];
    let pathways = codon1.list_mutation_pathways_(&codon2);
    assert_eq!(pathways, expected);
}

#[test]
fn codon_generate_mutation_pathways_stop_codon_middle_result() {
    let (codon1, codon2) = (Codon::AAG, Codon::TTG);
    let expected = vec![
        // vec![Codon::AAG, Codon::TAG, Codon::TTG],  // stop codon intermediate
        vec![Codon::AAG, Codon::ATG, Codon::TTG],
    ];
    let pathways = codon1.list_mutation_pathways_(&codon2);
    assert_eq!(pathways, expected);
}

#[test]
fn codon_generate_mutation_pathways_stop_codon_original() {
    let (codon1, codon2) = (Codon::TAA, Codon::TTT);
    let expected: Vec<Vec<Codon>> = vec![];
    let pathways = codon1.list_mutation_pathways_(&codon2);
    assert_eq!(pathways, expected);
}
