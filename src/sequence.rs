use vstd::prelude::*;

use crate::genetic_code::{AminoAcid, Base, Codon};

verus! {

/// The state of one position of a sequence: a unit, a gap, an unknown unit, or
/// text that could not be read, with its cause.
#[derive(Debug, Copy, Clone, PartialEq)]
pub enum SequenceItem<I, E> {
    Present(I),
    Gap,
    Unknown,
    Error(E),
}

impl<I, E> SequenceItem<I, E> {
    /// The unit, where one is present.
    pub open spec fn present(self) -> Option<I> {
        match self {
            SequenceItem::Present(i) => Some(i),
            _ => None,
        }
    }
}

/// One aligned column of two sequences, with its 1-based position.
#[derive(Debug, Clone, PartialEq)]
pub struct PwAlnItem<T, E>(pub SequenceItem<T, E>, pub SequenceItem<T, E>, pub usize);

impl<T, E> PwAlnItem<T, E> {
    pub open spec fn spec_both_valid(self) -> bool {
        self.0 is Present && self.1 is Present
    }

    pub fn both_valid(&self) -> (r: bool)
        ensures
            r == self.spec_both_valid(),
    {
        match self {
            PwAlnItem(SequenceItem::Present(_), SequenceItem::Present(_), _) => true,
            _ => false,
        }
    }

    pub fn any_valid(&self) -> (r: bool)
        ensures
            r == (self.0 is Present || self.1 is Present),
    {
        match self {
            PwAlnItem(SequenceItem::Present(_), _, _) => true,
            PwAlnItem(_, SequenceItem::Present(_), _) => true,
            _ => false,
        }
    }

    pub fn both_gap(&self) -> (r: bool)
        ensures
            r == (self.0 is Gap && self.1 is Gap),
    {
        match self {
            PwAlnItem(SequenceItem::Gap, SequenceItem::Gap, _) => true,
            _ => false,
        }
    }

    pub fn any_gap(&self) -> (r: bool)
        ensures
            r == (self.0 is Gap || self.1 is Gap),
    {
        match self {
            PwAlnItem(SequenceItem::Gap, _, _) => true,
            PwAlnItem(_, SequenceItem::Gap, _) => true,
            _ => false,
        }
    }

    pub fn both_unknown(&self) -> (r: bool)
        ensures
            r == (self.0 is Unknown && self.1 is Unknown),
    {
        match self {
            PwAlnItem(SequenceItem::Unknown, SequenceItem::Unknown, _) => true,
            _ => false,
        }
    }

    pub fn any_unknown(&self) -> (r: bool)
        ensures
            r == (self.0 is Unknown || self.1 is Unknown),
    {
        match self {
            PwAlnItem(SequenceItem::Unknown, _, _) => true,
            PwAlnItem(_, SequenceItem::Unknown, _) => true,
            _ => false,
        }
    }

    pub fn both_error(&self) -> (r: bool)
        ensures
            r == (self.0 is Error && self.1 is Error),
    {
        match self {
            PwAlnItem(SequenceItem::Error(_), SequenceItem::Error(_), _) => true,
            _ => false,
        }
    }

    pub fn any_error(&self) -> (r: bool)
        ensures
            r == (self.0 is Error || self.1 is Error),
    {
        match self {
            PwAlnItem(SequenceItem::Error(_), _, _) => true,
            PwAlnItem(_, SequenceItem::Error(_), _) => true,
            _ => false,
        }
    }
}

/// The predicate "both sides of the column hold a unit".
pub open spec fn both_present<T, E>() -> spec_fn(PwAlnItem<T, E>) -> bool {
    |p: PwAlnItem<T, E>| p.spec_both_valid()
}

/// A sequence item whose unit can be taken out, and which can be written as text.
pub trait WrappedSequenceItem: Sized {
    type Output;

    /// The unit held, if any.
    spec fn held(&self) -> Option<Self::Output>;

    /// The item as written in an alignment.
    spec fn text(&self) -> Seq<char>;

    /// The unit, or `Err` for a gap, an unknown unit or an error.
    fn unwrap(self) -> (r: Result<Self::Output, ()>)
        ensures
            self.held() matches Some(v) ==> r == Ok::<Self::Output, ()>(v),
            self.held() is None ==> r == Err::<Self::Output, ()>(()),
    ;

    fn to_str(&self) -> (r: String)
        ensures
            r@ == self.text(),
    ;
}

/// `s` as an owned string.
fn str_to_string(s: &str) -> (r: String)
    ensures
        r@ == s@,
{
    broadcast use vstd::string::to_string_from_display_ensures_for_str;

    s.to_string()
}

impl<E> WrappedSequenceItem for SequenceItem<Base, E> {
    type Output = Base;

    open spec fn held(&self) -> Option<Base> {
        self.present()
    }

    /// The base's letter, `-` for a gap, `N` for unknown, `!` for an error.
    open spec fn text(&self) -> Seq<char> {
        match self {
            SequenceItem::Present(b) => seq![b.letter()],
            SequenceItem::Gap => seq!['-'],
            SequenceItem::Unknown => seq!['N'],
            SequenceItem::Error(_) => seq!['!'],
        }
    }

    fn unwrap(self) -> (r: Result<Base, ()>) {
        match self {
            SequenceItem::Present(i) => Ok(i),
            _ => Err(()),
        }
    }

    fn to_str(&self) -> (r: String) {
        match self {
            SequenceItem::Present(i) => match i {
                Base::A => {
                    proof {
                        reveal_strlit("A");
                    }
                    str_to_string("A")
                },
                Base::C => {
                    proof {
                        reveal_strlit("C");
                    }
                    str_to_string("C")
                },
                Base::G => {
                    proof {
                        reveal_strlit("G");
                    }
                    str_to_string("G")
                },
                Base::T => {
                    proof {
                        reveal_strlit("T");
                    }
                    str_to_string("T")
                },
            },
            SequenceItem::Gap => {
                proof {
                    reveal_strlit("-");
                }
                str_to_string("-")
            },
            SequenceItem::Unknown => {
                proof {
                    reveal_strlit("N");
                }
                str_to_string("N")
            },
            SequenceItem::Error(_) => {
                proof {
                    reveal_strlit("!");
                }
                str_to_string("!")
            },
        }
    }
}

impl<E> WrappedSequenceItem for SequenceItem<AminoAcid, E> {
    type Output = AminoAcid;

    open spec fn held(&self) -> Option<AminoAcid> {
        self.present()
    }

    /// The one-letter code, `-` for a gap, `X` for unknown, `!` for an error.
    open spec fn text(&self) -> Seq<char> {
        match self {
            SequenceItem::Present(a) => seq![a.one_letter()],
            SequenceItem::Gap => seq!['-'],
            SequenceItem::Unknown => seq!['X'],
            SequenceItem::Error(_) => seq!['!'],
        }
    }

    fn unwrap(self) -> (r: Result<AminoAcid, ()>) {
        match self {
            SequenceItem::Present(i) => Ok(i),
            _ => Err(()),
        }
    }

    fn to_str(&self) -> (r: String) {
        match self {
            SequenceItem::Present(i) => match i {
                AminoAcid::Ala => {
                    proof {
                        reveal_strlit("A");
                    }
                    str_to_string("A")
                },
                AminoAcid::Arg => {
                    proof {
                        reveal_strlit("R");
                    }
                    str_to_string("R")
                },
                AminoAcid::Asn => {
                    proof {
                        reveal_strlit("N");
                    }
                    str_to_string("N")
                },
                AminoAcid::Asp => {
                    proof {
                        reveal_strlit("D");
                    }
                    str_to_string("D")
                },
                AminoAcid::Cys => {
                    proof {
                        reveal_strlit("C");
                    }
                    str_to_string("C")
                },
                AminoAcid::Glu => {
                    proof {
                        reveal_strlit("E");
                    }
                    str_to_string("E")
                },
                AminoAcid::Gln => {
                    proof {
                        reveal_strlit("Q");
                    }
                    str_to_string("Q")
                },
                AminoAcid::Gly => {
                    proof {
                        reveal_strlit("G");
                    }
                    str_to_string("G")
                },
                AminoAcid::His => {
                    proof {
                        reveal_strlit("H");
                    }
                    str_to_string("H")
                },
                AminoAcid::Ile => {
                    proof {
                        reveal_strlit("I");
                    }
                    str_to_string("I")
                },
                AminoAcid::Leu => {
                    proof {
                        reveal_strlit("L");
                    }
                    str_to_string("L")
                },
                AminoAcid::Lys => {
                    proof {
                        reveal_strlit("K");
                    }
                    str_to_string("K")
                },
                AminoAcid::Met => {
                    proof {
                        reveal_strlit("M");
                    }
                    str_to_string("M")
                },
                AminoAcid::Phe => {
                    proof {
                        reveal_strlit("F");
                    }
                    str_to_string("F")
                },
                AminoAcid::Pro => {
                    proof {
                        reveal_strlit("P");
                    }
                    str_to_string("P")
                },
                AminoAcid::Ser => {
                    proof {
                        reveal_strlit("S");
                    }
                    str_to_string("S")
                },
                AminoAcid::Thr => {
                    proof {
                        reveal_strlit("T");
                    }
                    str_to_string("T")
                },
                AminoAcid::Trp => {
                    proof {
                        reveal_strlit("W");
                    }
                    str_to_string("W")
                },
                AminoAcid::Tyr => {
                    proof {
                        reveal_strlit("Y");
                    }
                    str_to_string("Y")
                },
                AminoAcid::Val => {
                    proof {
                        reveal_strlit("V");
                    }
                    str_to_string("V")
                },
                AminoAcid::Stop => {
                    proof {
                        reveal_strlit("*");
                    }
                    str_to_string("*")
                },
            },
            SequenceItem::Gap => {
                proof {
                    reveal_strlit("-");
                }
                str_to_string("-")
            },
            SequenceItem::Unknown => {
                proof {
                    reveal_strlit("X");
                }
                str_to_string("X")
            },
            SequenceItem::Error(_) => {
                proof {
                    reveal_strlit("!");
                }
                str_to_string("!")
            },
        }
    }
}

impl<E> WrappedSequenceItem for SequenceItem<Codon, E> {
    type Output = Codon;

    open spec fn held(&self) -> Option<Codon> {
        self.present()
    }

    /// The codon's letters, `---` for a gap, `NNN` for unknown, `!!!` for an error.
    open spec fn text(&self) -> Seq<char> {
        match self {
            SequenceItem::Present(c) => c.text(),
            SequenceItem::Gap => seq!['-', '-', '-'],
            SequenceItem::Unknown => seq!['N', 'N', 'N'],
            SequenceItem::Error(_) => seq!['!', '!', '!'],
        }
    }

    fn unwrap(self) -> (r: Result<Codon, ()>) {
        match self {
            SequenceItem::Present(i) => Ok(i),
            _ => Err(()),
        }
    }

    fn to_str(&self) -> (r: String) {
        match self {
            SequenceItem::Present(i) => str_to_string(i.to_str_()),
            SequenceItem::Gap => {
                proof {
                    reveal_strlit("---");
                }
                str_to_string("---")
            },
            SequenceItem::Unknown => {
                proof {
                    reveal_strlit("NNN");
                }
                str_to_string("NNN")
            },
            SequenceItem::Error(_) => {
                proof {
                    reveal_strlit("!!!");
                }
                str_to_string("!!!")
            },
        }
    }
}

} // verus!
