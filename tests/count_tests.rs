use dnds::count::{
    count_differences, count_sites, count_sites_single_codon, count_total_differences,
    count_total_sites, SynNonsyn, COUNT_SCALE,
};
use dnds::genetic_code::Codon;
use dnds::sequence::{PwAlnItem, SequenceItem};

/// The two amounts as numbers of sites.
fn scaled(v: SynNonsyn) -> (f64, f64) {
    (v.syn as f64 / COUNT_SCALE as f64, v.nonsyn as f64 / COUNT_SCALE as f64)
}

fn approx(a: f64, b: f64) {
    assert!((a - b).abs() < 1e-6, "{} is not {}", a, b);
}

#[test]
fn count_sites_single_codon_phe() {
    let (s, n) = scaled(count_sites_single_codon(&Codon::TTT));  // Phe
    approx(s, 0.3333334);
    approx(n, 2.6666667);
    approx(s+n, 3.0);
}

#[test]
fn count_s_n_sites_single_codon_no_syn_change() {
    let (s, n) = scaled(count_sites_single_codon(&Codon::ATG));  // Met
    approx(s, 0.);
    approx(n, 3.);
    approx(s+n, 3.0);
}

#[test]
fn count_s_n_sites_single_codon_fourfold() {
    let (s, n) = scaled(count_sites_single_codon(&Codon::GGG));  // Leu
    approx(s, 1.0);
    approx(n, 2.0);
    approx(s+n, 3.0);
}

#[test]
fn count_s_n_sites_single_codon_sixfold() {
    let (s, n) = scaled(count_sites_single_codon(&Codon::CTA));  // Gly
    approx(s, 1.3333334);
    approx(n, 1.6666667);
    approx(s+n, 3.0);
}

#[test]
fn count_sites_single_codon_leu() {
    let (s, n) = scaled(count_sites_single_codon(&Codon::TTG));  // Leu
    approx(s, 0.75);
    approx(n, 2.25);
    approx(s+n, 3.0);
}

#[test]
fn count_sites_same() {
    if let Ok((s, n)) = count_sites(&Codon::ATG, &Codon::ATG).map(scaled) { // Met
        approx(s, 0.);
        approx(n, 3.);
        approx(s+n, 3.0);
    }
}

#[test]
fn count_sites_phe_leu() {
    let codon1 = Codon::TTT;
    let codon2 = Codon::TTG;
    let (s, n) = scaled(count_sites(&codon1, &codon2).unwrap());  // Phe, Leu
    approx(s, 0.541666);
    approx(n, 2.458333);
    approx(s+n, 3.0);
}

#[test]
fn count_differences_same() {
    let (codon1, codon2) = (Codon::AAA, Codon::AAA);
    let (s, n) = scaled(count_differences(&codon1, &codon2).unwrap());
    approx(s, 0.);
    approx(n, 0.);
    approx(s+n, 0.);
}

#[test]
fn count_differences_one_path() {
    let (codon1, codon2) = (Codon::CCT, Codon::CAT);
    let (s, n) = scaled(count_differences(&codon1, &codon2).unwrap());
    approx(s, 0.);
    approx(n, 1.);
    approx(s+n, 1.);
}

#[test]
fn count_differences_two_paths() {
    let (codon1, codon2) = (Codon::CCT, Codon::CAG);
    let (s, n) = scaled(count_differences(&codon1, &codon2).unwrap());
    approx(s, 0.5);
    approx(n, 1.5);
    approx(s+n, 2.);
}

#[test]
fn count_differences_six_paths() {
    let (codon1, codon2) = (Codon::TTT, Codon::GGG);
    let (s, n) = scaled(count_differences(&codon1, &codon2).unwrap());
    approx(s, 0.5);
    approx(n, 2.5);
    approx(s+n, 3.);
}

#[test]
fn count_total_sites_same() {
    let vec: Vec<PwAlnItem<Codon, ()>> = vec![
        PwAlnItem(
            SequenceItem::Present(Codon::ATG), 
            SequenceItem::Present(Codon::ATG), 
            1
        ),
        // PwAlnItem(
        //     SequenceItem::Present(Codon::ATA), 
        //     SequenceItem::Gap, 
        //     2
        // ),
        PwAlnItem(
            SequenceItem::Present(Codon::TTT), 
            SequenceItem::Present(Codon::TTT), 
            3
        ),
        // PwAlnItem(
        //     SequenceItem::Unknown, 
        //     SequenceItem::Present(Codon::TGA), 
        //     4
        // ),
        // PwAlnItem(
        //     SequenceItem::Present(Codon::TGA), 
        //     SequenceItem::Present(Codon::TGA), 
        //     5
        // ),
    ];
    let (s, n) = scaled(count_total_sites(vec).unwrap());
    approx(s, 0.333333);
    approx(n, 5.666666);
}

#[test]
fn count_total_sites_different() {
    let vec: Vec<PwAlnItem<Codon, ()>> = vec![
        PwAlnItem(
            SequenceItem::Present(Codon::ATG), 
            SequenceItem::Present(Codon::GAC), 
            1
        ),
        // PwAlnItem(
        //     SequenceItem::Present(Codon::ATA), 
        //     SequenceItem::Gap, 
        //     2
        // ),
        PwAlnItem(
            SequenceItem::Present(Codon::TTT), 
            SequenceItem::Present(Codon::AAA),  // has stop codon mutant TAA
            3
        ),
        // PwAlnItem(
        //     SequenceItem::Unknown, 
        //     SequenceItem::Present(Codon::TGA), 
        //     4
        // ),
        // PwAlnItem(
        //     SequenceItem::Present(Codon::TGA), 
        //     SequenceItem::Present(Codon::TGA), 
        //     5
        // ),
    ];
    let (s, n) = scaled(count_total_sites(vec).unwrap());
    approx(s, 0.520833);
    approx(n, 5.479166);
}

#[test]
fn count_total_sites_invalids() {
    let vec: Vec<PwAlnItem<Codon, ()>> = vec![
        PwAlnItem(
            SequenceItem::Present(Codon::ATG), 
            SequenceItem::Present(Codon::GAC), 
            1
        ),
        PwAlnItem(
            SequenceItem::Present(Codon::ATA), 
            SequenceItem::Gap, 
            2
        ),
        PwAlnItem(
            SequenceItem::Present(Codon::TTT), 
            SequenceItem::Present(Codon::AAA),  // has stop codon mutant TAA
            3
        ),
        // PwAlnItem(
        //     SequenceItem::Unknown, 
        //     SequenceItem::Present(Codon::TGA), 
        //     4
        // ),
        // PwAlnItem(
        //     SequenceItem::Present(Codon::TGA), 
        //     SequenceItem::Present(Codon::TGA), 
        //     5
        // ),
    ];
    let (s, n) = scaled(count_total_sites(vec).unwrap());
    approx(s, 0.520833);
    approx(n, 5.479166);
}

#[test]
fn count_total_differences_same() {
    let vec: Vec<PwAlnItem<Codon, ()>> = vec![
        PwAlnItem(
            SequenceItem::Present(Codon::ATG), 
            SequenceItem::Present(Codon::ATG), 
            1
        ),
        // PwAlnItem(
        //     SequenceItem::Present(Codon::ATA), 
        //     SequenceItem::Gap, 
        //     2
        // ),
        PwAlnItem(
            SequenceItem::Present(Codon::TTT), 
            SequenceItem::Present(Codon::TTT), 
            3
        ),
        // PwAlnItem(
        //     SequenceItem::Unknown, 
        //     SequenceItem::Present(Codon::TGA), 
        //     4
        // ),
        // PwAlnItem(
        //     SequenceItem::Present(Codon::TGA), 
        //     SequenceItem::Present(Codon::TGA), 
        //     5
        // ),
    ];
    let (s, n) = scaled(count_total_differences(vec).unwrap());
    approx(s, 0.);
    approx(n, 0.);
    approx(s+n, 0.);
}
