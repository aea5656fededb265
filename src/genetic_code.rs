use vstd::prelude::*;

verus! {
/// One of the four unambiguous nucleotides.
#[derive(Debug, Copy, Clone, PartialEq, Eq, Structural)]
pub enum Base {
    A,
    C,
    G,
    T,
}

/// The twenty standard amino acids, and the stop signal.
#[derive(Debug, Copy, Clone, PartialEq, Eq, Structural)]
pub enum AminoAcid {
    Ala,
    Arg,
    Asn,
    Asp,
    Cys,
    Glu,
    Gln,
    Gly,
    His,
    Ile,
    Leu,
    Lys,
    Met,
    Phe,
    Pro,
    Ser,
    Thr,
    Trp,
    Tyr,
    Val,
    Stop,
}

/// A nucleotide triplet; the 64 values are all combinations of three bases.
#[derive(Debug, Copy, Clone, PartialEq, Eq, Structural)]
pub enum Codon {
    AAA,
    AAC,
    AAG,
    AAT,
    ACA,
    ACC,
    ACG,
    ACT,
    AGA,
    AGC,
    AGG,
    AGT,
    ATA,
    ATC,
    ATG,
    ATT,
    CAA,
    CAC,
    CAG,
    CAT,
    CCA,
    CCC,
    CCG,
    CCT,
    CGA,
    CGC,
    CGG,
    CGT,
    CTA,
    CTC,
    CTG,
    CTT,
    GAA,
    GAC,
    GAG,
    GAT,
    GCA,
    GCC,
    GCG,
    GCT,
    GGA,
    GGC,
    GGG,
    GGT,
    GTA,
    GTC,
    GTG,
    GTT,
    TAA,
    TAC,
    TAG,
    TAT,
    TCA,
    TCC,
    TCG,
    TCT,
    TGA,
    TGC,
    TGG,
    TGT,
    TTA,
    TTC,
    TTG,
    TTT,
}

impl Codon {
    /// The three bases of the codon, first position first.
    pub open spec fn bases(self) -> (Base, Base, Base) {
        match self {
            Codon::AAA => (Base::A, Base::A, Base::A),
            Codon::AAC => (Base::A, Base::A, Base::C),
            Codon::AAG => (Base::A, Base::A, Base::G),
            Codon::AAT => (Base::A, Base::A, Base::T),
            Codon::ACA => (Base::A, Base::C, Base::A),
            Codon::ACC => (Base::A, Base::C, Base::C),
            Codon::ACG => (Base::A, Base::C, Base::G),
            Codon::ACT => (Base::A, Base::C, Base::T),
            Codon::AGA => (Base::A, Base::G, Base::A),
            Codon::AGC => (Base::A, Base::G, Base::C),
            Codon::AGG => (Base::A, Base::G, Base::G),
            Codon::AGT => (Base::A, Base::G, Base::T),
            Codon::ATA => (Base::A, Base::T, Base::A),
            Codon::ATC => (Base::A, Base::T, Base::C),
            Codon::ATG => (Base::A, Base::T, Base::G),
            Codon::ATT => (Base::A, Base::T, Base::T),
            Codon::CAA => (Base::C, Base::A, Base::A),
            Codon::CAC => (Base::C, Base::A, Base::C),
            Codon::CAG => (Base::C, Base::A, Base::G),
            Codon::CAT => (Base::C, Base::A, Base::T),
            Codon::CCA => (Base::C, Base::C, Base::A),
            Codon::CCC => (Base::C, Base::C, Base::C),
            Codon::CCG => (Base::C, Base::C, Base::G),
            Codon::CCT => (Base::C, Base::C, Base::T),
            Codon::CGA => (Base::C, Base::G, Base::A),
            Codon::CGC => (Base::C, Base::G, Base::C),
            Codon::CGG => (Base::C, Base::G, Base::G),
            Codon::CGT => (Base::C, Base::G, Base::T),
            Codon::CTA => (Base::C, Base::T, Base::A),
            Codon::CTC => (Base::C, Base::T, Base::C),
            Codon::CTG => (Base::C, Base::T, Base::G),
            Codon::CTT => (Base::C, Base::T, Base::T),
            Codon::GAA => (Base::G, Base::A, Base::A),
            Codon::GAC => (Base::G, Base::A, Base::C),
            Codon::GAG => (Base::G, Base::A, Base::G),
            Codon::GAT => (Base::G, Base::A, Base::T),
            Codon::GCA => (Base::G, Base::C, Base::A),
            Codon::GCC => (Base::G, Base::C, Base::C),
            Codon::GCG => (Base::G, Base::C, Base::G),
            Codon::GCT => (Base::G, Base::C, Base::T),
            Codon::GGA => (Base::G, Base::G, Base::A),
            Codon::GGC => (Base::G, Base::G, Base::C),
            Codon::GGG => (Base::G, Base::G, Base::G),
            Codon::GGT => (Base::G, Base::G, Base::T),
            Codon::GTA => (Base::G, Base::T, Base::A),
            Codon::GTC => (Base::G, Base::T, Base::C),
            Codon::GTG => (Base::G, Base::T, Base::G),
            Codon::GTT => (Base::G, Base::T, Base::T),
            Codon::TAA => (Base::T, Base::A, Base::A),
            Codon::TAC => (Base::T, Base::A, Base::C),
            Codon::TAG => (Base::T, Base::A, Base::G),
            Codon::TAT => (Base::T, Base::A, Base::T),
            Codon::TCA => (Base::T, Base::C, Base::A),
            Codon::TCC => (Base::T, Base::C, Base::C),
            Codon::TCG => (Base::T, Base::C, Base::G),
            Codon::TCT => (Base::T, Base::C, Base::T),
            Codon::TGA => (Base::T, Base::G, Base::A),
            Codon::TGC => (Base::T, Base::G, Base::C),
            Codon::TGG => (Base::T, Base::G, Base::G),
            Codon::TGT => (Base::T, Base::G, Base::T),
            Codon::TTA => (Base::T, Base::T, Base::A),
            Codon::TTC => (Base::T, Base::T, Base::C),
            Codon::TTG => (Base::T, Base::T, Base::G),
            Codon::TTT => (Base::T, Base::T, Base::T),
        }
    }

    /// The codon made of the three given bases.
    pub open spec fn from_bases(b0: Base, b1: Base, b2: Base) -> Codon {
        match (b0, b1, b2) {
            (Base::A, Base::A, Base::A) => Codon::AAA,
            (Base::A, Base::A, Base::C) => Codon::AAC,
            (Base::A, Base::A, Base::G) => Codon::AAG,
            (Base::A, Base::A, Base::T) => Codon::AAT,
            (Base::A, Base::C, Base::A) => Codon::ACA,
            (Base::A, Base::C, Base::C) => Codon::ACC,
            (Base::A, Base::C, Base::G) => Codon::ACG,
            (Base::A, Base::C, Base::T) => Codon::ACT,
            (Base::A, Base::G, Base::A) => Codon::AGA,
            (Base::A, Base::G, Base::C) => Codon::AGC,
            (Base::A, Base::G, Base::G) => Codon::AGG,
            (Base::A, Base::G, Base::T) => Codon::AGT,
            (Base::A, Base::T, Base::A) => Codon::ATA,
            (Base::A, Base::T, Base::C) => Codon::ATC,
            (Base::A, Base::T, Base::G) => Codon::ATG,
            (Base::A, Base::T, Base::T) => Codon::ATT,
            (Base::C, Base::A, Base::A) => Codon::CAA,
            (Base::C, Base::A, Base::C) => Codon::CAC,
            (Base::C, Base::A, Base::G) => Codon::CAG,
            (Base::C, Base::A, Base::T) => Codon::CAT,
            (Base::C, Base::C, Base::A) => Codon::CCA,
            (Base::C, Base::C, Base::C) => Codon::CCC,
            (Base::C, Base::C, Base::G) => Codon::CCG,
            (Base::C, Base::C, Base::T) => Codon::CCT,
            (Base::C, Base::G, Base::A) => Codon::CGA,
            (Base::C, Base::G, Base::C) => Codon::CGC,
            (Base::C, Base::G, Base::G) => Codon::CGG,
            (Base::C, Base::G, Base::T) => Codon::CGT,
            (Base::C, Base::T, Base::A) => Codon::CTA,
            (Base::C, Base::T, Base::C) => Codon::CTC,
            (Base::C, Base::T, Base::G) => Codon::CTG,
            (Base::C, Base::T, Base::T) => Codon::CTT,
            (Base::G, Base::A, Base::A) => Codon::GAA,
            (Base::G, Base::A, Base::C) => Codon::GAC,
            (Base::G, Base::A, Base::G) => Codon::GAG,
            (Base::G, Base::A, Base::T) => Codon::GAT,
            (Base::G, Base::C, Base::A) => Codon::GCA,
            (Base::G, Base::C, Base::C) => Codon::GCC,
            (Base::G, Base::C, Base::G) => Codon::GCG,
            (Base::G, Base::C, Base::T) => Codon::GCT,
            (Base::G, Base::G, Base::A) => Codon::GGA,
            (Base::G, Base::G, Base::C) => Codon::GGC,
            (Base::G, Base::G, Base::G) => Codon::GGG,
            (Base::G, Base::G, Base::T) => Codon::GGT,
            (Base::G, Base::T, Base::A) => Codon::GTA,
            (Base::G, Base::T, Base::C) => Codon::GTC,
            (Base::G, Base::T, Base::G) => Codon::GTG,
            (Base::G, Base::T, Base::T) => Codon::GTT,
            (Base::T, Base::A, Base::A) => Codon::TAA,
            (Base::T, Base::A, Base::C) => Codon::TAC,
            (Base::T, Base::A, Base::G) => Codon::TAG,
            (Base::T, Base::A, Base::T) => Codon::TAT,
            (Base::T, Base::C, Base::A) => Codon::TCA,
            (Base::T, Base::C, Base::C) => Codon::TCC,
            (Base::T, Base::C, Base::G) => Codon::TCG,
            (Base::T, Base::C, Base::T) => Codon::TCT,
            (Base::T, Base::G, Base::A) => Codon::TGA,
            (Base::T, Base::G, Base::C) => Codon::TGC,
            (Base::T, Base::G, Base::G) => Codon::TGG,
            (Base::T, Base::G, Base::T) => Codon::TGT,
            (Base::T, Base::T, Base::A) => Codon::TTA,
            (Base::T, Base::T, Base::C) => Codon::TTC,
            (Base::T, Base::T, Base::G) => Codon::TTG,
            (Base::T, Base::T, Base::T) => Codon::TTT,
        }
    }

    /// The standard genetic code; `None` marks the three stop codons.
    pub open spec fn amino_acid(self) -> Option<AminoAcid> {
        match self {
            Codon::AAA => Some(AminoAcid::Lys),
            Codon::AAC => Some(AminoAcid::Asn),
            Codon::AAG => Some(AminoAcid::Lys),
            Codon::AAT => Some(AminoAcid::Asn),
            Codon::ACA => Some(AminoAcid::Thr),
            Codon::ACC => Some(AminoAcid::Thr),
            Codon::ACG => Some(AminoAcid::Thr),
            Codon::ACT => Some(AminoAcid::Thr),
            Codon::AGA => Some(AminoAcid::Arg),
            Codon::AGC => Some(AminoAcid::Ser),
            Codon::AGG => Some(AminoAcid::Arg),
            Codon::AGT => Some(AminoAcid::Ser),
            Codon::ATA => Some(AminoAcid::Ile),
            Codon::ATC => Some(AminoAcid::Ile),
            Codon::ATG => Some(AminoAcid::Met),
            Codon::ATT => Some(AminoAcid::Ile),
            Codon::CAA => Some(AminoAcid::Gln),
            Codon::CAC => Some(AminoAcid::His),
            Codon::CAG => Some(AminoAcid::Gln),
            Codon::CAT => Some(AminoAcid::His),
            Codon::CCA => Some(AminoAcid::Pro),
            Codon::CCC => Some(AminoAcid::Pro),
            Codon::CCG => Some(AminoAcid::Pro),
            Codon::CCT => Some(AminoAcid::Pro),
            Codon::CGA => Some(AminoAcid::Arg),
            Codon::CGC => Some(AminoAcid::Arg),
            Codon::CGG => Some(AminoAcid::Arg),
            Codon::CGT => Some(AminoAcid::Arg),
            Codon::CTA => Some(AminoAcid::Leu),
            Codon::CTC => Some(AminoAcid::Leu),
            Codon::CTG => Some(AminoAcid::Leu),
            Codon::CTT => Some(AminoAcid::Leu),
            Codon::GAA => Some(AminoAcid::Glu),
            Codon::GAC => Some(AminoAcid::Asp),
            Codon::GAG => Some(AminoAcid::Glu),
            Codon::GAT => Some(AminoAcid::Asp),
            Codon::GCA => Some(AminoAcid::Ala),
            Codon::GCC => Some(AminoAcid::Ala),
            Codon::GCG => Some(AminoAcid::Ala),
            Codon::GCT => Some(AminoAcid::Ala),
            Codon::GGA => Some(AminoAcid::Gly),
            Codon::GGC => Some(AminoAcid::Gly),
            Codon::GGG => Some(AminoAcid::Gly),
            Codon::GGT => Some(AminoAcid::Gly),
            Codon::GTA => Some(AminoAcid::Val),
            Codon::GTC => Some(AminoAcid::Val),
            Codon::GTG => Some(AminoAcid::Val),
            Codon::GTT => Some(AminoAcid::Val),
            Codon::TAA => None,
            Codon::TAC => Some(AminoAcid::Tyr),
            Codon::TAG => None,
            Codon::TAT => Some(AminoAcid::Tyr),
            Codon::TCA => Some(AminoAcid::Ser),
            Codon::TCC => Some(AminoAcid::Ser),
            Codon::TCG => Some(AminoAcid::Ser),
            Codon::TCT => Some(AminoAcid::Ser),
            Codon::TGA => None,
            Codon::TGC => Some(AminoAcid::Cys),
            Codon::TGG => Some(AminoAcid::Trp),
            Codon::TGT => Some(AminoAcid::Cys),
            Codon::TTA => Some(AminoAcid::Leu),
            Codon::TTC => Some(AminoAcid::Phe),
            Codon::TTG => Some(AminoAcid::Leu),
            Codon::TTT => Some(AminoAcid::Phe),
        }
    }
}

impl Codon {
    /// The three bases, first position first.
    pub fn to_bases_(&self) -> (r: [Base; 3])
        ensures
            r@ == seq![self.bases().0, self.bases().1, self.bases().2],
    {
        match self {
            Codon::AAA => [Base::A, Base::A, Base::A],
            Codon::AAC => [Base::A, Base::A, Base::C],
            Codon::AAG => [Base::A, Base::A, Base::G],
            Codon::AAT => [Base::A, Base::A, Base::T],
            Codon::ACA => [Base::A, Base::C, Base::A],
            Codon::ACC => [Base::A, Base::C, Base::C],
            Codon::ACG => [Base::A, Base::C, Base::G],
            Codon::ACT => [Base::A, Base::C, Base::T],
            Codon::AGA => [Base::A, Base::G, Base::A],
            Codon::AGC => [Base::A, Base::G, Base::C],
            Codon::AGG => [Base::A, Base::G, Base::G],
            Codon::AGT => [Base::A, Base::G, Base::T],
            Codon::ATA => [Base::A, Base::T, Base::A],
            Codon::ATC => [Base::A, Base::T, Base::C],
            Codon::ATG => [Base::A, Base::T, Base::G],
            Codon::ATT => [Base::A, Base::T, Base::T],
            Codon::CAA => [Base::C, Base::A, Base::A],
            Codon::CAC => [Base::C, Base::A, Base::C],
            Codon::CAG => [Base::C, Base::A, Base::G],
            Codon::CAT => [Base::C, Base::A, Base::T],
            Codon::CCA => [Base::C, Base::C, Base::A],
            Codon::CCC => [Base::C, Base::C, Base::C],
            Codon::CCG => [Base::C, Base::C, Base::G],
            Codon::CCT => [Base::C, Base::C, Base::T],
            Codon::CGA => [Base::C, Base::G, Base::A],
            Codon::CGC => [Base::C, Base::G, Base::C],
            Codon::CGG => [Base::C, Base::G, Base::G],
            Codon::CGT => [Base::C, Base::G, Base::T],
            Codon::CTA => [Base::C, Base::T, Base::A],
            Codon::CTC => [Base::C, Base::T, Base::C],
            Codon::CTG => [Base::C, Base::T, Base::G],
            Codon::CTT => [Base::C, Base::T, Base::T],
            Codon::GAA => [Base::G, Base::A, Base::A],
            Codon::GAC => [Base::G, Base::A, Base::C],
            Codon::GAG => [Base::G, Base::A, Base::G],
            Codon::GAT => [Base::G, Base::A, Base::T],
            Codon::GCA => [Base::G, Base::C, Base::A],
            Codon::GCC => [Base::G, Base::C, Base::C],
            Codon::GCG => [Base::G, Base::C, Base::G],
            Codon::GCT => [Base::G, Base::C, Base::T],
            Codon::GGA => [Base::G, Base::G, Base::A],
            Codon::GGC => [Base::G, Base::G, Base::C],
            Codon::GGG => [Base::G, Base::G, Base::G],
            Codon::GGT => [Base::G, Base::G, Base::T],
            Codon::GTA => [Base::G, Base::T, Base::A],
            Codon::GTC => [Base::G, Base::T, Base::C],
            Codon::GTG => [Base::G, Base::T, Base::G],
            Codon::GTT => [Base::G, Base::T, Base::T],
            Codon::TAA => [Base::T, Base::A, Base::A],
            Codon::TAC => [Base::T, Base::A, Base::C],
            Codon::TAG => [Base::T, Base::A, Base::G],
            Codon::TAT => [Base::T, Base::A, Base::T],
            Codon::TCA => [Base::T, Base::C, Base::A],
            Codon::TCC => [Base::T, Base::C, Base::C],
            Codon::TCG => [Base::T, Base::C, Base::G],
            Codon::TCT => [Base::T, Base::C, Base::T],
            Codon::TGA => [Base::T, Base::G, Base::A],
            Codon::TGC => [Base::T, Base::G, Base::C],
            Codon::TGG => [Base::T, Base::G, Base::G],
            Codon::TGT => [Base::T, Base::G, Base::T],
            Codon::TTA => [Base::T, Base::T, Base::A],
            Codon::TTC => [Base::T, Base::T, Base::C],
            Codon::TTG => [Base::T, Base::T, Base::G],
            Codon::TTT => [Base::T, Base::T, Base::T],
        }
    }

    /// The codon of three bases; every triple is one, so this never fails.
    pub fn from_bases_(b1: Base, b2: Base, b3: Base) -> (r: Result<Self, &'static str>)
        ensures
            r == Ok::<Codon, &'static str>(Codon::from_bases(b1, b2, b3)),
    {
        match (b1, b2, b3) {
            (Base::A, Base::A, Base::A) => Ok(Codon::AAA),
            (Base::A, Base::A, Base::C) => Ok(Codon::AAC),
            (Base::A, Base::A, Base::G) => Ok(Codon::AAG),
            (Base::A, Base::A, Base::T) => Ok(Codon::AAT),
            (Base::A, Base::C, Base::A) => Ok(Codon::ACA),
            (Base::A, Base::C, Base::C) => Ok(Codon::ACC),
            (Base::A, Base::C, Base::G) => Ok(Codon::ACG),
            (Base::A, Base::C, Base::T) => Ok(Codon::ACT),
            (Base::A, Base::G, Base::A) => Ok(Codon::AGA),
            (Base::A, Base::G, Base::C) => Ok(Codon::AGC),
            (Base::A, Base::G, Base::G) => Ok(Codon::AGG),
            (Base::A, Base::G, Base::T) => Ok(Codon::AGT),
            (Base::A, Base::T, Base::A) => Ok(Codon::ATA),
            (Base::A, Base::T, Base::C) => Ok(Codon::ATC),
            (Base::A, Base::T, Base::G) => Ok(Codon::ATG),
            (Base::A, Base::T, Base::T) => Ok(Codon::ATT),
            (Base::C, Base::A, Base::A) => Ok(Codon::CAA),
            (Base::C, Base::A, Base::C) => Ok(Codon::CAC),
            (Base::C, Base::A, Base::G) => Ok(Codon::CAG),
            (Base::C, Base::A, Base::T) => Ok(Codon::CAT),
            (Base::C, Base::C, Base::A) => Ok(Codon::CCA),
            (Base::C, Base::C, Base::C) => Ok(Codon::CCC),
            (Base::C, Base::C, Base::G) => Ok(Codon::CCG),
            (Base::C, Base::C, Base::T) => Ok(Codon::CCT),
            (Base::C, Base::G, Base::A) => Ok(Codon::CGA),
            (Base::C, Base::G, Base::C) => Ok(Codon::CGC),
            (Base::C, Base::G, Base::G) => Ok(Codon::CGG),
            (Base::C, Base::G, Base::T) => Ok(Codon::CGT),
            (Base::C, Base::T, Base::A) => Ok(Codon::CTA),
            (Base::C, Base::T, Base::C) => Ok(Codon::CTC),
            (Base::C, Base::T, Base::G) => Ok(Codon::CTG),
            (Base::C, Base::T, Base::T) => Ok(Codon::CTT),
            (Base::G, Base::A, Base::A) => Ok(Codon::GAA),
            (Base::G, Base::A, Base::C) => Ok(Codon::GAC),
            (Base::G, Base::A, Base::G) => Ok(Codon::GAG),
            (Base::G, Base::A, Base::T) => Ok(Codon::GAT),
            (Base::G, Base::C, Base::A) => Ok(Codon::GCA),
            (Base::G, Base::C, Base::C) => Ok(Codon::GCC),
            (Base::G, Base::C, Base::G) => Ok(Codon::GCG),
            (Base::G, Base::C, Base::T) => Ok(Codon::GCT),
            (Base::G, Base::G, Base::A) => Ok(Codon::GGA),
            (Base::G, Base::G, Base::C) => Ok(Codon::GGC),
            (Base::G, Base::G, Base::G) => Ok(Codon::GGG),
            (Base::G, Base::G, Base::T) => Ok(Codon::GGT),
            (Base::G, Base::T, Base::A) => Ok(Codon::GTA),
            (Base::G, Base::T, Base::C) => Ok(Codon::GTC),
            (Base::G, Base::T, Base::G) => Ok(Codon::GTG),
            (Base::G, Base::T, Base::T) => Ok(Codon::GTT),
            (Base::T, Base::A, Base::A) => Ok(Codon::TAA),
            (Base::T, Base::A, Base::C) => Ok(Codon::TAC),
            (Base::T, Base::A, Base::G) => Ok(Codon::TAG),
            (Base::T, Base::A, Base::T) => Ok(Codon::TAT),
            (Base::T, Base::C, Base::A) => Ok(Codon::TCA),
            (Base::T, Base::C, Base::C) => Ok(Codon::TCC),
            (Base::T, Base::C, Base::G) => Ok(Codon::TCG),
            (Base::T, Base::C, Base::T) => Ok(Codon::TCT),
            (Base::T, Base::G, Base::A) => Ok(Codon::TGA),
            (Base::T, Base::G, Base::C) => Ok(Codon::TGC),
            (Base::T, Base::G, Base::G) => Ok(Codon::TGG),
            (Base::T, Base::G, Base::T) => Ok(Codon::TGT),
            (Base::T, Base::T, Base::A) => Ok(Codon::TTA),
            (Base::T, Base::T, Base::C) => Ok(Codon::TTC),
            (Base::T, Base::T, Base::G) => Ok(Codon::TTG),
            (Base::T, Base::T, Base::T) => Ok(Codon::TTT),
        }
    }

    /// The amino acid under the standard genetic code; `None` for a stop codon.
    pub fn translate_(&self) -> (r: Option<AminoAcid>)
        ensures
            r == self.amino_acid(),
    {
        match self {
            Codon::AAA => Some(AminoAcid::Lys),
            Codon::AAC => Some(AminoAcid::Asn),
            Codon::AAG => Some(AminoAcid::Lys),
            Codon::AAT => Some(AminoAcid::Asn),
            Codon::ACA => Some(AminoAcid::Thr),
            Codon::ACC => Some(AminoAcid::Thr),
            Codon::ACG => Some(AminoAcid::Thr),
            Codon::ACT => Some(AminoAcid::Thr),
            Codon::AGA => Some(AminoAcid::Arg),
            Codon::AGC => Some(AminoAcid::Ser),
            Codon::AGG => Some(AminoAcid::Arg),
            Codon::AGT => Some(AminoAcid::Ser),
            Codon::ATA => Some(AminoAcid::Ile),
            Codon::ATC => Some(AminoAcid::Ile),
            Codon::ATG => Some(AminoAcid::Met),
            Codon::ATT => Some(AminoAcid::Ile),
            Codon::CAA => Some(AminoAcid::Gln),
            Codon::CAC => Some(AminoAcid::His),
            Codon::CAG => Some(AminoAcid::Gln),
            Codon::CAT => Some(AminoAcid::His),
            Codon::CCA => Some(AminoAcid::Pro),
            Codon::CCC => Some(AminoAcid::Pro),
            Codon::CCG => Some(AminoAcid::Pro),
            Codon::CCT => Some(AminoAcid::Pro),
            Codon::CGA => Some(AminoAcid::Arg),
            Codon::CGC => Some(AminoAcid::Arg),
            Codon::CGG => Some(AminoAcid::Arg),
            Codon::CGT => Some(AminoAcid::Arg),
            Codon::CTA => Some(AminoAcid::Leu),
            Codon::CTC => Some(AminoAcid::Leu),
            Codon::CTG => Some(AminoAcid::Leu),
            Codon::CTT => Some(AminoAcid::Leu),
            Codon::GAA => Some(AminoAcid::Glu),
            Codon::GAC => Some(AminoAcid::Asp),
            Codon::GAG => Some(AminoAcid::Glu),
            Codon::GAT => Some(AminoAcid::Asp),
            Codon::GCA => Some(AminoAcid::Ala),
            Codon::GCC => Some(AminoAcid::Ala),
            Codon::GCG => Some(AminoAcid::Ala),
            Codon::GCT => Some(AminoAcid::Ala),
            Codon::GGA => Some(AminoAcid::Gly),
            Codon::GGC => Some(AminoAcid::Gly),
            Codon::GGG => Some(AminoAcid::Gly),
            Codon::GGT => Some(AminoAcid::Gly),
            Codon::GTA => Some(AminoAcid::Val),
            Codon::GTC => Some(AminoAcid::Val),
            Codon::GTG => Some(AminoAcid::Val),
            Codon::GTT => Some(AminoAcid::Val),
            Codon::TAA => None,
            Codon::TAC => Some(AminoAcid::Tyr),
            Codon::TAG => None,
            Codon::TAT => Some(AminoAcid::Tyr),
            Codon::TCA => Some(AminoAcid::Ser),
            Codon::TCC => Some(AminoAcid::Ser),
            Codon::TCG => Some(AminoAcid::Ser),
            Codon::TCT => Some(AminoAcid::Ser),
            Codon::TGA => None,
            Codon::TGC => Some(AminoAcid::Cys),
            Codon::TGG => Some(AminoAcid::Trp),
            Codon::TGT => Some(AminoAcid::Cys),
            Codon::TTA => Some(AminoAcid::Leu),
            Codon::TTC => Some(AminoAcid::Phe),
            Codon::TTG => Some(AminoAcid::Leu),
            Codon::TTT => Some(AminoAcid::Phe),
        }
    }
}

impl Base {
    /// All four bases, in the order A, C, G, T.
    pub open spec fn all() -> Seq<Base> {
        seq![Base::A, Base::C, Base::G, Base::T]
    }
}

impl Codon {
    /// The base at position `i` (0, 1 or 2).
    pub open spec fn base_at(self, i: int) -> Base {
        if i == 0 {
            self.bases().0
        } else if i == 1 {
            self.bases().1
        } else {
            self.bases().2
        }
    }

    /// The codon that equals `self` except for base `b` at position `i`.
    pub open spec fn with_base(self, i: int, b: Base) -> Codon {
        Codon::from_bases(
            if i == 0 { b } else { self.base_at(0) },
            if i == 1 { b } else { self.base_at(1) },
            if i == 2 { b } else { self.base_at(2) },
        )
    }

    /// One of the three codons that end translation.
    pub open spec fn is_stop(self) -> bool {
        self == Codon::TAA || self == Codon::TAG || self == Codon::TGA
    }

    /// A change from `self` to `other` is synonymous when both codons encode the
    /// same amino acid; a change to, from or between stop codons never is.
    pub open spec fn synonymous(self, other: Codon) -> bool {
        match (self.amino_acid(), other.amino_acid()) {
            (Some(a), Some(b)) => a == b,
            _ => false,
        }
    }

    /// Whether this is the start codon ATG.
    pub fn is_start_codon_(&self) -> (r: bool)
        ensures
            r == (*self == Codon::ATG),
    {
        match self {
            Codon::ATG => true,
            _ => false,
        }
    }

    /// Whether this is one of the stop codons TAA, TAG and TGA.
    pub fn is_stop_codon_(&self) -> (r: bool)
        ensures
            r == self.is_stop(),
    {
        match self {
            Codon::TAG => true,
            Codon::TGA => true,
            Codon::TAA => true,
            _ => false,
        }
    }

    /// Whether changing `self` into `other` keeps the amino acid.
    pub fn is_synonymous_change_(&self, other: &Codon) -> (r: bool)
        ensures
            r == self.synonymous(*other),
    {
        match (self.translate_(), other.translate_()) {
            (Some(a), Some(b)) => a == b,
            _ => false,
        }
    }
}

/// The base triple and the codon determine each other.
pub proof fn lemma_bases_round_trip(c: Codon, b0: Base, b1: Base, b2: Base)
    ensures
        Codon::from_bases(c.bases().0, c.bases().1, c.bases().2) == c,
        Codon::from_bases(b0, b1, b2).bases() == (b0, b1, b2),
{
}

/// Exactly the codons with no amino acid are stop codons.
pub proof fn lemma_stop_has_no_amino_acid(c: Codon)
    ensures
        c.is_stop() <==> c.amino_acid() is None,
{
}

/// The stop codons are TAA, TAG and TGA.
pub proof fn lemma_stop_bases(c: Codon)
    ensures
        c.is_stop() <==> (c.bases() == (Base::T, Base::A, Base::A) || c.bases() == (Base::T, Base::A, Base::G)
            || c.bases() == (Base::T, Base::G, Base::A)),
{
}

/// A stop codon ends in A or G, so a codon ending in C or T is never one.
pub proof fn lemma_stop_ends_in_purine(c: Codon)
    ensures
        c.is_stop() ==> (c.base_at(2) == Base::A || c.base_at(2) == Base::G),
{
}

} // verus!
