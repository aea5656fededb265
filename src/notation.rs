use vstd::prelude::*;

use crate::genetic_code::{lemma_bases_round_trip, AminoAcid, Base, Codon};
use vstd::seq_lib::{lemma_seq_contains_after_push, lemma_seq_empty_contains_nothing};
use crate::sequence::SequenceItem;

verus! {

/// `c` with an ASCII lower-case letter made upper-case; any other character unchanged.
pub open spec fn ascii_upper(c: char) -> char {
    if 'a' <= c && c <= 'z' {
        ((c as u32 - 32) as u8) as char
    } else {
        c
    }
}

/// `c` with an ASCII upper-case letter made lower-case; any other character unchanged.
pub open spec fn ascii_lower(c: char) -> char {
    if 'A' <= c && c <= 'Z' {
        ((c as u32 + 32) as u8) as char
    } else {
        c
    }
}

/// `c` in upper case, for ASCII letters.
pub fn to_ascii_upper(c: char) -> (r: char)
    ensures
        r == ascii_upper(c),
{
    if 'a' <= c && c <= 'z' {
        ((c as u32 - 32) as u8) as char
    } else {
        c
    }
}

/// `c` in lower case, for ASCII letters.
pub fn to_ascii_lower(c: char) -> (r: char)
    ensures
        r == ascii_lower(c),
{
    if 'A' <= c && c <= 'Z' {
        ((c as u32 + 32) as u8) as char
    } else {
        c
    }
}

impl Base {
    /// The upper-case letter of the base.
    pub open spec fn letter(self) -> char {
        match self {
            Base::A => 'A',
            Base::C => 'C',
            Base::G => 'G',
            Base::T => 'T',
        }
    }

    /// The upper-case letter of the base.
    pub fn to_char_(&self) -> (r: &char)
        ensures
            *r == self.letter(),
    {
        match self {
            Base::A => &'A',
            Base::C => &'C',
            Base::G => &'G',
            Base::T => &'T',
        }
    }

    /// How one alignment character reads as a nucleotide.
    pub fn from_char_(c: &char) -> (r: SequenceItem<Self, ()>)
        ensures
            r == base_item(*c),
    {
        match *c {
            'A' => SequenceItem::Present(Base::A),
            'C' => SequenceItem::Present(Base::C),
            'G' => SequenceItem::Present(Base::G),
            'T' => SequenceItem::Present(Base::T),
            'N' | 'n' => SequenceItem::Unknown,
            '-' => SequenceItem::Gap,
            _ => SequenceItem::Error(()),
        }
    }
}

/// How one alignment character reads as a nucleotide: an upper-case base
/// letter, `N` in either case for unknown, `-` for a gap, anything else an
/// error.
pub open spec fn base_item(c: char) -> SequenceItem<Base, ()> {
    if let Some(b) = base_of_letter(c) {
        SequenceItem::Present(b)
    } else if ascii_upper(c) == 'N' {
        SequenceItem::Unknown
    } else if c == '-' {
        SequenceItem::Gap
    } else {
        SequenceItem::Error(())
    }
}

impl AminoAcid {
    /// The one-letter code; `*` for stop.
    pub open spec fn one_letter(self) -> char {
        match self {
            AminoAcid::Ala => 'A',
            AminoAcid::Arg => 'R',
            AminoAcid::Asn => 'N',
            AminoAcid::Asp => 'D',
            AminoAcid::Cys => 'C',
            AminoAcid::Glu => 'E',
            AminoAcid::Gln => 'Q',
            AminoAcid::Gly => 'G',
            AminoAcid::His => 'H',
            AminoAcid::Ile => 'I',
            AminoAcid::Leu => 'L',
            AminoAcid::Lys => 'K',
            AminoAcid::Met => 'M',
            AminoAcid::Phe => 'F',
            AminoAcid::Pro => 'P',
            AminoAcid::Ser => 'S',
            AminoAcid::Thr => 'T',
            AminoAcid::Trp => 'W',
            AminoAcid::Tyr => 'Y',
            AminoAcid::Val => 'V',
            AminoAcid::Stop => '*',
        }
    }

    /// The three-letter code; `Ter` for stop.
    pub open spec fn three_letters(self) -> (char, char, char) {
        match self {
            AminoAcid::Ala => ('A', 'l', 'a'),
            AminoAcid::Arg => ('A', 'r', 'g'),
            AminoAcid::Asn => ('A', 's', 'n'),
            AminoAcid::Asp => ('A', 's', 'p'),
            AminoAcid::Cys => ('C', 'y', 's'),
            AminoAcid::Glu => ('G', 'l', 'u'),
            AminoAcid::Gln => ('G', 'l', 'n'),
            AminoAcid::Gly => ('G', 'l', 'y'),
            AminoAcid::His => ('H', 'i', 's'),
            AminoAcid::Ile => ('I', 'l', 'e'),
            AminoAcid::Leu => ('L', 'e', 'u'),
            AminoAcid::Lys => ('L', 'y', 's'),
            AminoAcid::Met => ('M', 'e', 't'),
            AminoAcid::Phe => ('P', 'h', 'e'),
            AminoAcid::Pro => ('P', 'r', 'o'),
            AminoAcid::Ser => ('S', 'e', 'r'),
            AminoAcid::Thr => ('T', 'h', 'r'),
            AminoAcid::Trp => ('T', 'r', 'p'),
            AminoAcid::Tyr => ('T', 'y', 'r'),
            AminoAcid::Val => ('V', 'a', 'l'),
            AminoAcid::Stop => ('T', 'e', 'r'),
        }
    }

    /// The codons that encode the amino acid (the stop codons, for stop).
    pub open spec fn codons(self) -> Seq<Codon> {
        match self {
            AminoAcid::Ala => seq![Codon::GCA, Codon::GCC, Codon::GCG, Codon::GCT],
            AminoAcid::Arg => seq![Codon::AGA, Codon::AGG,Codon::CGA,Codon::CGC,Codon::CGG,Codon::CGT],
            AminoAcid::Asn => seq![Codon::AAC, Codon::AAT],
            AminoAcid::Asp => seq![Codon::GAC, Codon::GAT],
            AminoAcid::Cys => seq![Codon::TGC, Codon::TGT],
            AminoAcid::Glu => seq![Codon::GAA, Codon::GAG],
            AminoAcid::Gln => seq![Codon::CAA, Codon::CAG],
            AminoAcid::Gly => seq![Codon::GGA, Codon::GGC, Codon::GGG, Codon::GGT],
            AminoAcid::His => seq![Codon::CAC, Codon::CAT],
            AminoAcid::Ile => seq![Codon::ATA, Codon::ATC, Codon::ATT],
            AminoAcid::Leu => seq![Codon::CTA, Codon::CTC, Codon::CTG, Codon::CTT, Codon::TTA, Codon::TTG],
            AminoAcid::Lys => seq![Codon::AAA, Codon::AAG],
            AminoAcid::Met => seq![Codon::ATG],
            AminoAcid::Phe => seq![Codon::TTC, Codon::TTT],
            AminoAcid::Pro => seq![Codon::CCA, Codon::CCC, Codon::CCG, Codon::CCT],
            AminoAcid::Ser => seq![Codon::AGC, Codon::AGT, Codon::TCA, Codon::TCC, Codon::TCG, Codon::TCT],
            AminoAcid::Thr => seq![Codon::ACA, Codon::ACC, Codon::ACG, Codon::ACT],
            AminoAcid::Trp => seq![Codon::TGG],
            AminoAcid::Tyr => seq![Codon::TAC, Codon::TAT],
            AminoAcid::Val => seq![Codon::GTA, Codon::GTC, Codon::GTG, Codon::GTT],
            AminoAcid::Stop => seq![Codon::TAG, Codon::TGA, Codon::TAA],
        }
    }

    /// Whether `c` encodes this amino acid, stop included.
    pub open spec fn encoded_by(self, c: Codon) -> bool {
        match c.amino_acid() {
            Some(x) => x == self,
            None => self == AminoAcid::Stop,
        }
    }

    /// The three-letter code; `Ter` for stop.
    pub fn to_three_str_(&self) -> (r: &str)
        ensures
            r@ == seq![self.three_letters().0, self.three_letters().1, self.three_letters().2],
    {
        match self {
            AminoAcid::Ala => {
                proof {
                    reveal_strlit("Ala");
                }
                "Ala"
            },
            AminoAcid::Arg => {
                proof {
                    reveal_strlit("Arg");
                }
                "Arg"
            },
            AminoAcid::Asn => {
                proof {
                    reveal_strlit("Asn");
                }
                "Asn"
            },
            AminoAcid::Asp => {
                proof {
                    reveal_strlit("Asp");
                }
                "Asp"
            },
            AminoAcid::Cys => {
                proof {
                    reveal_strlit("Cys");
                }
                "Cys"
            },
            AminoAcid::Glu => {
                proof {
                    reveal_strlit("Glu");
                }
                "Glu"
            },
            AminoAcid::Gln => {
                proof {
                    reveal_strlit("Gln");
                }
                "Gln"
            },
            AminoAcid::Gly => {
                proof {
                    reveal_strlit("Gly");
                }
                "Gly"
            },
            AminoAcid::His => {
                proof {
                    reveal_strlit("His");
                }
                "His"
            },
            AminoAcid::Ile => {
                proof {
                    reveal_strlit("Ile");
                }
                "Ile"
            },
            AminoAcid::Leu => {
                proof {
                    reveal_strlit("Leu");
                }
                "Leu"
            },
            AminoAcid::Lys => {
                proof {
                    reveal_strlit("Lys");
                }
                "Lys"
            },
            AminoAcid::Met => {
                proof {
                    reveal_strlit("Met");
                }
                "Met"
            },
            AminoAcid::Phe => {
                proof {
                    reveal_strlit("Phe");
                }
                "Phe"
            },
            AminoAcid::Pro => {
                proof {
                    reveal_strlit("Pro");
                }
                "Pro"
            },
            AminoAcid::Ser => {
                proof {
                    reveal_strlit("Ser");
                }
                "Ser"
            },
            AminoAcid::Thr => {
                proof {
                    reveal_strlit("Thr");
                }
                "Thr"
            },
            AminoAcid::Trp => {
                proof {
                    reveal_strlit("Trp");
                }
                "Trp"
            },
            AminoAcid::Tyr => {
                proof {
                    reveal_strlit("Tyr");
                }
                "Tyr"
            },
            AminoAcid::Val => {
                proof {
                    reveal_strlit("Val");
                }
                "Val"
            },
            AminoAcid::Stop => {
                proof {
                    reveal_strlit("Ter");
                }
                "Ter"
            },
        }
    }

    /// The one-letter code; `*` for stop.
    pub fn to_one_char_(&self) -> (r: &char)
        ensures
            *r == self.one_letter(),
    {
        match self {
            AminoAcid::Ala => &'A',
            AminoAcid::Arg => &'R',
            AminoAcid::Asn => &'N',
            AminoAcid::Asp => &'D',
            AminoAcid::Cys => &'C',
            AminoAcid::Glu => &'E',
            AminoAcid::Gln => &'Q',
            AminoAcid::Gly => &'G',
            AminoAcid::His => &'H',
            AminoAcid::Ile => &'I',
            AminoAcid::Leu => &'L',
            AminoAcid::Lys => &'K',
            AminoAcid::Met => &'M',
            AminoAcid::Phe => &'F',
            AminoAcid::Pro => &'P',
            AminoAcid::Ser => &'S',
            AminoAcid::Thr => &'T',
            AminoAcid::Trp => &'W',
            AminoAcid::Tyr => &'Y',
            AminoAcid::Val => &'V',
            AminoAcid::Stop => &'*',
        }
    }

    /// How a three-letter code reads, ignoring case.
    pub fn from_three_str_(aa: &str) -> (r: SequenceItem<Self, ()>)
        ensures
            r == amino_acid_item_of_code(aa@),
    {
        if aa.unicode_len() != 3 {
            return SequenceItem::Error(());
        }
        let c0 = to_ascii_lower(aa.get_char(0));
        let c1 = to_ascii_lower(aa.get_char(1));
        let c2 = to_ascii_lower(aa.get_char(2));
        match (c0, c1, c2) {
            ('a', 'l', 'a') => SequenceItem::Present(AminoAcid::Ala),
            ('a', 'r', 'g') => SequenceItem::Present(AminoAcid::Arg),
            ('a', 's', 'n') => SequenceItem::Present(AminoAcid::Asn),
            ('a', 's', 'p') => SequenceItem::Present(AminoAcid::Asp),
            ('c', 'y', 's') => SequenceItem::Present(AminoAcid::Cys),
            ('g', 'l', 'u') => SequenceItem::Present(AminoAcid::Glu),
            ('g', 'l', 'n') => SequenceItem::Present(AminoAcid::Gln),
            ('g', 'l', 'y') => SequenceItem::Present(AminoAcid::Gly),
            ('h', 'i', 's') => SequenceItem::Present(AminoAcid::His),
            ('i', 'l', 'e') => SequenceItem::Present(AminoAcid::Ile),
            ('l', 'e', 'u') => SequenceItem::Present(AminoAcid::Leu),
            ('l', 'y', 's') => SequenceItem::Present(AminoAcid::Lys),
            ('m', 'e', 't') => SequenceItem::Present(AminoAcid::Met),
            ('p', 'h', 'e') => SequenceItem::Present(AminoAcid::Phe),
            ('p', 'r', 'o') => SequenceItem::Present(AminoAcid::Pro),
            ('s', 'e', 'r') => SequenceItem::Present(AminoAcid::Ser),
            ('t', 'h', 'r') => SequenceItem::Present(AminoAcid::Thr),
            ('t', 'r', 'p') => SequenceItem::Present(AminoAcid::Trp),
            ('t', 'y', 'r') => SequenceItem::Present(AminoAcid::Tyr),
            ('v', 'a', 'l') => SequenceItem::Present(AminoAcid::Val),
            ('t', 'e', 'r') => SequenceItem::Present(AminoAcid::Stop),
            ('u', 'n', 'k') => SequenceItem::Unknown,
            ('g', 'a', 'p') => SequenceItem::Gap,
            _ => SequenceItem::Error(()),
        }
    }

    /// How one alignment character reads as an amino acid.
    pub fn from_one_char_(aa: &char) -> (r: SequenceItem<Self, ()>)
        ensures
            r == amino_acid_item(*aa),
    {
        match to_ascii_upper(*aa) {
            'A' => SequenceItem::Present(AminoAcid::Ala),
            'R' => SequenceItem::Present(AminoAcid::Arg),
            'N' => SequenceItem::Present(AminoAcid::Asn),
            'D' => SequenceItem::Present(AminoAcid::Asp),
            'C' => SequenceItem::Present(AminoAcid::Cys),
            'E' => SequenceItem::Present(AminoAcid::Glu),
            'Q' => SequenceItem::Present(AminoAcid::Gln),
            'G' => SequenceItem::Present(AminoAcid::Gly),
            'H' => SequenceItem::Present(AminoAcid::His),
            'I' => SequenceItem::Present(AminoAcid::Ile),
            'L' => SequenceItem::Present(AminoAcid::Leu),
            'K' => SequenceItem::Present(AminoAcid::Lys),
            'M' => SequenceItem::Present(AminoAcid::Met),
            'F' => SequenceItem::Present(AminoAcid::Phe),
            'P' => SequenceItem::Present(AminoAcid::Pro),
            'S' => SequenceItem::Present(AminoAcid::Ser),
            'T' => SequenceItem::Present(AminoAcid::Thr),
            'W' => SequenceItem::Present(AminoAcid::Trp),
            'Y' => SequenceItem::Present(AminoAcid::Tyr),
            'V' => SequenceItem::Present(AminoAcid::Val),
            '*' => SequenceItem::Present(AminoAcid::Stop),
            'X' => SequenceItem::Unknown,
            '-' => SequenceItem::Gap,
            _ => SequenceItem::Error(()),
        }
    }

    /// The codons that encode the amino acid, stop included.
    pub fn backtranslate_(&self) -> (r: Vec<Codon>)
        ensures
            r@ == self.codons(),
    {
        let r = match self {
            AminoAcid::Ala => vec![Codon::GCA, Codon::GCC, Codon::GCG, Codon::GCT],
            AminoAcid::Arg => vec![Codon::AGA, Codon::AGG,Codon::CGA,Codon::CGC,Codon::CGG,Codon::CGT],
            AminoAcid::Asn => vec![Codon::AAC, Codon::AAT],
            AminoAcid::Asp => vec![Codon::GAC, Codon::GAT],
            AminoAcid::Cys => vec![Codon::TGC, Codon::TGT],
            AminoAcid::Glu => vec![Codon::GAA, Codon::GAG],
            AminoAcid::Gln => vec![Codon::CAA, Codon::CAG],
            AminoAcid::Gly => vec![Codon::GGA, Codon::GGC, Codon::GGG, Codon::GGT],
            AminoAcid::His => vec![Codon::CAC, Codon::CAT],
            AminoAcid::Ile => vec![Codon::ATA, Codon::ATC, Codon::ATT],
            AminoAcid::Leu => vec![Codon::CTA, Codon::CTC, Codon::CTG, Codon::CTT, Codon::TTA, Codon::TTG],
            AminoAcid::Lys => vec![Codon::AAA, Codon::AAG],
            AminoAcid::Met => vec![Codon::ATG],
            AminoAcid::Phe => vec![Codon::TTC, Codon::TTT],
            AminoAcid::Pro => vec![Codon::CCA, Codon::CCC, Codon::CCG, Codon::CCT],
            AminoAcid::Ser => vec![Codon::AGC, Codon::AGT, Codon::TCA, Codon::TCC, Codon::TCG, Codon::TCT],
            AminoAcid::Thr => vec![Codon::ACA, Codon::ACC, Codon::ACG, Codon::ACT],
            AminoAcid::Trp => vec![Codon::TGG],
            AminoAcid::Tyr => vec![Codon::TAC, Codon::TAT],
            AminoAcid::Val => vec![Codon::GTA, Codon::GTC, Codon::GTG, Codon::GTT],
            AminoAcid::Stop => vec![Codon::TAG, Codon::TGA, Codon::TAA],
        };
        r
    }
}

/// The amino acid whose one-letter code is `c`, in upper case.
pub open spec fn amino_acid_of_letter(c: char) -> Option<AminoAcid> {
    match c {
        'A' => Some(AminoAcid::Ala),
        'R' => Some(AminoAcid::Arg),
        'N' => Some(AminoAcid::Asn),
        'D' => Some(AminoAcid::Asp),
        'C' => Some(AminoAcid::Cys),
        'E' => Some(AminoAcid::Glu),
        'Q' => Some(AminoAcid::Gln),
        'G' => Some(AminoAcid::Gly),
        'H' => Some(AminoAcid::His),
        'I' => Some(AminoAcid::Ile),
        'L' => Some(AminoAcid::Leu),
        'K' => Some(AminoAcid::Lys),
        'M' => Some(AminoAcid::Met),
        'F' => Some(AminoAcid::Phe),
        'P' => Some(AminoAcid::Pro),
        'S' => Some(AminoAcid::Ser),
        'T' => Some(AminoAcid::Thr),
        'W' => Some(AminoAcid::Trp),
        'Y' => Some(AminoAcid::Tyr),
        'V' => Some(AminoAcid::Val),
        '*' => Some(AminoAcid::Stop),
        _ => None,
    }
}

/// The amino acid whose three-letter code is `l`, in lower case.
pub open spec fn amino_acid_of_code(l: (char, char, char)) -> Option<AminoAcid> {
    match l {
        ('a', 'l', 'a') => Some(AminoAcid::Ala),
        ('a', 'r', 'g') => Some(AminoAcid::Arg),
        ('a', 's', 'n') => Some(AminoAcid::Asn),
        ('a', 's', 'p') => Some(AminoAcid::Asp),
        ('c', 'y', 's') => Some(AminoAcid::Cys),
        ('g', 'l', 'u') => Some(AminoAcid::Glu),
        ('g', 'l', 'n') => Some(AminoAcid::Gln),
        ('g', 'l', 'y') => Some(AminoAcid::Gly),
        ('h', 'i', 's') => Some(AminoAcid::His),
        ('i', 'l', 'e') => Some(AminoAcid::Ile),
        ('l', 'e', 'u') => Some(AminoAcid::Leu),
        ('l', 'y', 's') => Some(AminoAcid::Lys),
        ('m', 'e', 't') => Some(AminoAcid::Met),
        ('p', 'h', 'e') => Some(AminoAcid::Phe),
        ('p', 'r', 'o') => Some(AminoAcid::Pro),
        ('s', 'e', 'r') => Some(AminoAcid::Ser),
        ('t', 'h', 'r') => Some(AminoAcid::Thr),
        ('t', 'r', 'p') => Some(AminoAcid::Trp),
        ('t', 'y', 'r') => Some(AminoAcid::Tyr),
        ('v', 'a', 'l') => Some(AminoAcid::Val),
        ('t', 'e', 'r') => Some(AminoAcid::Stop),
        _ => None,
    }
}

/// The two code tables read back exactly the codes of the amino acids.
pub proof fn lemma_amino_acid_codes(a: AminoAcid, c: char, l: (char, char, char))
    ensures
        amino_acid_of_letter(a.one_letter()) == Some(a),
        amino_acid_of_letter(c) matches Some(x) ==> x.one_letter() == c,
        amino_acid_of_code(lower3(a.three_letters())) == Some(a),
        amino_acid_of_code(l) matches Some(x) ==> lower3(x.three_letters()) == l,
{
}

/// `(c0, c1, c2)` with each letter made lower-case.
pub open spec fn lower3(t: (char, char, char)) -> (char, char, char) {
    (ascii_lower(t.0), ascii_lower(t.1), ascii_lower(t.2))
}

/// How a three-letter code reads, ignoring case: an amino acid, `Ter` for stop,
/// `Unk` for unknown, `Gap` for a gap, anything else an error.
pub open spec fn amino_acid_item_of_code(s: Seq<char>) -> SequenceItem<AminoAcid, ()> {
    if s.len() != 3 {
        SequenceItem::Error(())
    } else {
        let l = lower3((s[0], s[1], s[2]));
        if let Some(a) = amino_acid_of_code(l) {
            SequenceItem::Present(a)
        } else if l == ('u', 'n', 'k') {
            SequenceItem::Unknown
        } else if l == ('g', 'a', 'p') {
            SequenceItem::Gap
        } else {
            SequenceItem::Error(())
        }
    }
}

/// How one alignment character reads as an amino acid, ignoring case: a
/// one-letter code, `*` for stop, `X` for unknown, `-` for a gap, anything else
/// an error.
pub open spec fn amino_acid_item(c: char) -> SequenceItem<AminoAcid, ()> {
    let u = ascii_upper(c);
    if let Some(a) = amino_acid_of_letter(u) {
        SequenceItem::Present(a)
    } else if u == 'X' {
        SequenceItem::Unknown
    } else if u == '-' {
        SequenceItem::Gap
    } else {
        SequenceItem::Error(())
    }
}

impl Codon {
    /// The three letters of the codon, as in `ATG`.
    pub open spec fn text(self) -> Seq<char> {
        seq![self.bases().0.letter(), self.bases().1.letter(), self.bases().2.letter()]
    }

    /// The three letters of the codon.
    pub fn to_str_(&self) -> (r: &str)
        ensures
            r@ == self.text(),
    {
        match self {
            Codon::AAA => {
                proof {
                    reveal_strlit("AAA");
                }
                "AAA"
            },
            Codon::AAC => {
                proof {
                    reveal_strlit("AAC");
                }
                "AAC"
            },
            Codon::AAG => {
                proof {
                    reveal_strlit("AAG");
                }
                "AAG"
            },
            Codon::AAT => {
                proof {
                    reveal_strlit("AAT");
                }
                "AAT"
            },
            Codon::ACA => {
                proof {
                    reveal_strlit("ACA");
                }
                "ACA"
            },
            Codon::ACC => {
                proof {
                    reveal_strlit("ACC");
                }
                "ACC"
            },
            Codon::ACG => {
                proof {
                    reveal_strlit("ACG");
                }
                "ACG"
            },
            Codon::ACT => {
                proof {
                    reveal_strlit("ACT");
                }
                "ACT"
            },
            Codon::AGA => {
                proof {
                    reveal_strlit("AGA");
                }
                "AGA"
            },
            Codon::AGC => {
                proof {
                    reveal_strlit("AGC");
                }
                "AGC"
            },
            Codon::AGG => {
                proof {
                    reveal_strlit("AGG");
                }
                "AGG"
            },
            Codon::AGT => {
                proof {
                    reveal_strlit("AGT");
                }
                "AGT"
            },
            Codon::ATA => {
                proof {
                    reveal_strlit("ATA");
                }
                "ATA"
            },
            Codon::ATC => {
                proof {
                    reveal_strlit("ATC");
                }
                "ATC"
            },
            Codon::ATG => {
                proof {
                    reveal_strlit("ATG");
                }
                "ATG"
            },
            Codon::ATT => {
                proof {
                    reveal_strlit("ATT");
                }
                "ATT"
            },
            Codon::CAA => {
                proof {
                    reveal_strlit("CAA");
                }
                "CAA"
            },
            Codon::CAC => {
                proof {
                    reveal_strlit("CAC");
                }
                "CAC"
            },
            Codon::CAG => {
                proof {
                    reveal_strlit("CAG");
                }
                "CAG"
            },
            Codon::CAT => {
                proof {
                    reveal_strlit("CAT");
                }
                "CAT"
            },
            Codon::CCA => {
                proof {
                    reveal_strlit("CCA");
                }
                "CCA"
            },
            Codon::CCC => {
                proof {
                    reveal_strlit("CCC");
                }
                "CCC"
            },
            Codon::CCG => {
                proof {
                    reveal_strlit("CCG");
                }
                "CCG"
            },
            Codon::CCT => {
                proof {
                    reveal_strlit("CCT");
                }
                "CCT"
            },
            Codon::CGA => {
                proof {
                    reveal_strlit("CGA");
                }
                "CGA"
            },
            Codon::CGC => {
                proof {
                    reveal_strlit("CGC");
                }
                "CGC"
            },
            Codon::CGG => {
                proof {
                    reveal_strlit("CGG");
                }
                "CGG"
            },
            Codon::CGT => {
                proof {
                    reveal_strlit("CGT");
                }
                "CGT"
            },
            Codon::CTA => {
                proof {
                    reveal_strlit("CTA");
                }
                "CTA"
            },
            Codon::CTC => {
                proof {
                    reveal_strlit("CTC");
                }
                "CTC"
            },
            Codon::CTG => {
                proof {
                    reveal_strlit("CTG");
                }
                "CTG"
            },
            Codon::CTT => {
                proof {
                    reveal_strlit("CTT");
                }
                "CTT"
            },
            Codon::GAA => {
                proof {
                    reveal_strlit("GAA");
                }
                "GAA"
            },
            Codon::GAC => {
                proof {
                    reveal_strlit("GAC");
                }
                "GAC"
            },
            Codon::GAG => {
                proof {
                    reveal_strlit("GAG");
                }
                "GAG"
            },
            Codon::GAT => {
                proof {
                    reveal_strlit("GAT");
                }
                "GAT"
            },
            Codon::GCA => {
                proof {
                    reveal_strlit("GCA");
                }
                "GCA"
            },
            Codon::GCC => {
                proof {
                    reveal_strlit("GCC");
                }
                "GCC"
            },
            Codon::GCG => {
                proof {
                    reveal_strlit("GCG");
                }
                "GCG"
            },
            Codon::GCT => {
                proof {
                    reveal_strlit("GCT");
                }
                "GCT"
            },
            Codon::GGA => {
                proof {
                    reveal_strlit("GGA");
                }
                "GGA"
            },
            Codon::GGC => {
                proof {
                    reveal_strlit("GGC");
                }
                "GGC"
            },
            Codon::GGG => {
                proof {
                    reveal_strlit("GGG");
                }
                "GGG"
            },
            Codon::GGT => {
                proof {
                    reveal_strlit("GGT");
                }
                "GGT"
            },
            Codon::GTA => {
                proof {
                    reveal_strlit("GTA");
                }
                "GTA"
            },
            Codon::GTC => {
                proof {
                    reveal_strlit("GTC");
                }
                "GTC"
            },
            Codon::GTG => {
                proof {
                    reveal_strlit("GTG");
                }
                "GTG"
            },
            Codon::GTT => {
                proof {
                    reveal_strlit("GTT");
                }
                "GTT"
            },
            Codon::TAA => {
                proof {
                    reveal_strlit("TAA");
                }
                "TAA"
            },
            Codon::TAC => {
                proof {
                    reveal_strlit("TAC");
                }
                "TAC"
            },
            Codon::TAG => {
                proof {
                    reveal_strlit("TAG");
                }
                "TAG"
            },
            Codon::TAT => {
                proof {
                    reveal_strlit("TAT");
                }
                "TAT"
            },
            Codon::TCA => {
                proof {
                    reveal_strlit("TCA");
                }
                "TCA"
            },
            Codon::TCC => {
                proof {
                    reveal_strlit("TCC");
                }
                "TCC"
            },
            Codon::TCG => {
                proof {
                    reveal_strlit("TCG");
                }
                "TCG"
            },
            Codon::TCT => {
                proof {
                    reveal_strlit("TCT");
                }
                "TCT"
            },
            Codon::TGA => {
                proof {
                    reveal_strlit("TGA");
                }
                "TGA"
            },
            Codon::TGC => {
                proof {
                    reveal_strlit("TGC");
                }
                "TGC"
            },
            Codon::TGG => {
                proof {
                    reveal_strlit("TGG");
                }
                "TGG"
            },
            Codon::TGT => {
                proof {
                    reveal_strlit("TGT");
                }
                "TGT"
            },
            Codon::TTA => {
                proof {
                    reveal_strlit("TTA");
                }
                "TTA"
            },
            Codon::TTC => {
                proof {
                    reveal_strlit("TTC");
                }
                "TTC"
            },
            Codon::TTG => {
                proof {
                    reveal_strlit("TTG");
                }
                "TTG"
            },
            Codon::TTT => {
                proof {
                    reveal_strlit("TTT");
                }
                "TTT"
            },
        }
    }

    /// How a triplet reads as a codon.
    pub fn from_str_(codon: &str) -> (r: SequenceItem<Self, ()>)
        ensures
            r == codon_item(codon@),
    {
        if codon.unicode_len() != 3 {
            return SequenceItem::Error(());
        }
        proof {
            assert(codon@ =~= seq![codon@[0], codon@[1], codon@[2]]);
        }
        codon_from_chars(codon.get_char(0), codon.get_char(1), codon.get_char(2))
    }
}

/// How the triplet `c0 c1 c2` reads as a codon.
pub fn codon_from_chars(c0: char, c1: char, c2: char) -> (r: SequenceItem<Codon, ()>)
    ensures
        r == codon_item(seq![c0, c1, c2]),
{
    let ghost s = seq![c0, c1, c2];
    assert(s[0] == c0 && s[1] == c1 && s[2] == c2);
    match (upper_base(c0), upper_base(c1), upper_base(c2)) {
        (Some(b0), Some(b1), Some(b2)) => SequenceItem::Present(Codon::from_bases_(b0, b1, b2).unwrap()),
        _ => {
            let ghost unknown = seq!['N', 'N', 'N'];
            let ghost gap = seq!['-', '-', '-'];
            assert(unknown[0] == 'N' && unknown[1] == 'N' && unknown[2] == 'N');
            assert(gap[0] == '-' && gap[1] == '-' && gap[2] == '-');
            if c0 == 'N' && c1 == 'N' && c2 == 'N' {
                assert(s =~= unknown);
                SequenceItem::Unknown
            } else if c0 == '-' && c1 == '-' && c2 == '-' {
                assert(s =~= gap);
                SequenceItem::Gap
            } else {
                SequenceItem::Error(())
            }
        },
    }
}

/// The base whose upper-case letter is `c`; lower case is not accepted.
pub open spec fn base_of_letter(c: char) -> Option<Base> {
    match c {
        'A' => Some(Base::A),
        'C' => Some(Base::C),
        'G' => Some(Base::G),
        'T' => Some(Base::T),
        _ => None,
    }
}

/// `base_of_letter` reads back exactly the letters of the bases.
pub proof fn lemma_base_letters(b: Base, c: char)
    ensures
        base_of_letter(b.letter()) == Some(b),
        base_of_letter(c) matches Some(x) ==> x.letter() == c,
{
}

fn upper_base(c: char) -> (r: Option<Base>)
    ensures
        r == base_of_letter(c),
{
    match c {
        'A' => Some(Base::A),
        'C' => Some(Base::C),
        'G' => Some(Base::G),
        'T' => Some(Base::T),
        _ => None,
    }
}

/// How a triplet reads as a codon, in upper case only: a codon, `NNN` for
/// unknown, `---` for a gap, anything else an error.
pub open spec fn codon_item(s: Seq<char>) -> SequenceItem<Codon, ()> {
    if s.len() != 3 {
        SequenceItem::Error(())
    } else if base_of_letter(s[0]) is Some && base_of_letter(s[1]) is Some && base_of_letter(s[2]) is Some {
        SequenceItem::Present(
            Codon::from_bases(
                base_of_letter(s[0]).unwrap(),
                base_of_letter(s[1]).unwrap(),
                base_of_letter(s[2]).unwrap(),
            ),
        )
    } else if s == seq!['N', 'N', 'N'] {
        SequenceItem::Unknown
    } else if s == seq!['-', '-', '-'] {
        SequenceItem::Gap
    } else {
        SequenceItem::Error(())
    }
}

/// The letters of a codon read back as that codon.
pub proof fn lemma_codon_text_round_trip(c: Codon)
    ensures
        codon_item(c.text()) == SequenceItem::<Codon, ()>::Present(c),
{
    lemma_bases_round_trip(c, Base::A, Base::A, Base::A);
}

/// Back-translation lists exactly the codons that encode the amino acid.
#[verifier::rlimit(50)]
pub proof fn lemma_codons_encode(a: AminoAcid, c: Codon)
    ensures
        a.codons().contains(c) <==> a.encoded_by(c),
{
    broadcast use lemma_seq_contains_after_push, lemma_seq_empty_contains_nothing;

}

} // verus!
