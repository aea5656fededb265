use dnds::convert::str_to_codons;
use dnds::genetic_code::Codon;

#[test]
fn str_to_codon_vec_len_9() {
    let s: &str = "ATGCGCTTT";
    let expected: Vec<Codon> = vec![
        Codon::ATG,
        Codon::CGC,
        Codon::TTT,
    ];
    if let Ok(codons) = str_to_codons(s) {
        assert_eq!(codons, expected);
    }
}

#[test]
fn str_to_codon_vec_len_8() {
    let s: &str = "ATGCGCTT";
    assert!(str_to_codons(s).is_err())
}

#[test]
fn str_to_codon_vec_len_10() {
    let s: &str = "ATGCGCTTTG";
    assert!(str_to_codons(s).is_err())
}

#[test]
fn str_to_codon_vec_len_0() {
    let s: &str = "";
    if let Ok(codons) = str_to_codons(s) {
        assert_eq!(codons, vec![]);
    }
}
