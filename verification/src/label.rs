//! The 16-way label codec.
//!
//! A label is one of 16 personality tags, each written with four letters
//! drawn from four binary-opposite pairs: {I,E}, {S,N}, {T,F}, {J,P}. A
//! label has three interchangeable encodings, and every codec here is a
//! total bijection over the 16 valid values and an explicit error on
//! everything else:
//!  - a compact bit code: one flag per letter, four of eight flags set;
//!  - a dense index in `[0, 16)`, the classifier's output position;
//!  - the four-letter name.

use vstd::prelude::*;
use vstd::string::StrSliceExecFns;

verus! {

/// One of the eight letters a label is written with. Each letter owns one
/// bit of the compact code; opposite letters sit in adjacent bits.
#[derive(Clone, Copy, Debug, PartialEq, Eq, Structural)]
pub enum MBType {
    I,
    E,
    S,
    N,
    T,
    F,
    J,
    P,
}

impl MBType {
    /// The single flag bit that stands for this letter in the compact code.
    pub open spec fn spec_flag(self) -> u8 {
        match self {
            MBType::I => 0b10000000,
            MBType::E => 0b01000000,
            MBType::S => 0b00100000,
            MBType::N => 0b00010000,
            MBType::T => 0b00001000,
            MBType::F => 0b00000100,
            MBType::J => 0b00000010,
            MBType::P => 0b00000001,
        }
    }

    /// Returns this letter's flag bit.
    pub fn flag(self) -> (bits: u8)
        ensures
            bits == self.spec_flag(),
    {
        match self {
            MBType::I => 0b10000000,
            MBType::E => 0b01000000,
            MBType::S => 0b00100000,
            MBType::N => 0b00010000,
            MBType::T => 0b00001000,
            MBType::F => 0b00000100,
            MBType::J => 0b00000010,
            MBType::P => 0b00000001,
        }
    }
}

/// The error reported by every decode operation on a value outside the 16
/// valid labels. Decoding never coerces to a default label.
#[derive(Clone, Copy, Debug, PartialEq, Eq, Structural)]
pub struct LabelError;

impl LabelError {
    /// A short description of the failure.
    pub fn message(&self) -> (s: &'static str)
        ensures
            s@ == "Invalid MBTI type"@,
    {
        "Invalid MBTI type"
    }
}

/// One of the 16 personality tags.
#[derive(Clone, Copy, Debug, PartialEq, Eq, Structural)]
pub enum MBTI {
    ENFP,
    ENFJ,
    ENTP,
    ENTJ,
    ESFP,
    ESFJ,
    ESTP,
    ESTJ,
    INFP,
    INFJ,
    INTP,
    INTJ,
    ISFP,
    ISFJ,
    ISTP,
    ISTJ,
}

impl MBTI {
    /// The four letters of this label, in writing order.
    pub open spec fn spec_letters(self) -> (MBType, MBType, MBType, MBType) {
        match self {
            MBTI::ENFP => (MBType::E, MBType::N, MBType::F, MBType::P),
            MBTI::ENFJ => (MBType::E, MBType::N, MBType::F, MBType::J),
            MBTI::ENTP => (MBType::E, MBType::N, MBType::T, MBType::P),
            MBTI::ENTJ => (MBType::E, MBType::N, MBType::T, MBType::J),
            MBTI::ESFP => (MBType::E, MBType::S, MBType::F, MBType::P),
            MBTI::ESFJ => (MBType::E, MBType::S, MBType::F, MBType::J),
            MBTI::ESTP => (MBType::E, MBType::S, MBType::T, MBType::P),
            MBTI::ESTJ => (MBType::E, MBType::S, MBType::T, MBType::J),
            MBTI::INFP => (MBType::I, MBType::N, MBType::F, MBType::P),
            MBTI::INFJ => (MBType::I, MBType::N, MBType::F, MBType::J),
            MBTI::INTP => (MBType::I, MBType::N, MBType::T, MBType::P),
            MBTI::INTJ => (MBType::I, MBType::N, MBType::T, MBType::J),
            MBTI::ISFP => (MBType::I, MBType::S, MBType::F, MBType::P),
            MBTI::ISFJ => (MBType::I, MBType::S, MBType::F, MBType::J),
            MBTI::ISTP => (MBType::I, MBType::S, MBType::T, MBType::P),
            MBTI::ISTJ => (MBType::I, MBType::S, MBType::T, MBType::J),
        }
    }

    /// The compact bit code of this label: four of eight flags set.
    pub open spec fn spec_code(self) -> u8 {
        match self {
            MBTI::ENFP => 0b01010101,
            MBTI::ENFJ => 0b01010110,
            MBTI::ENTP => 0b01011001,
            MBTI::ENTJ => 0b01011010,
            MBTI::ESFP => 0b01100101,
            MBTI::ESFJ => 0b01100110,
            MBTI::ESTP => 0b01101001,
            MBTI::ESTJ => 0b01101010,
            MBTI::INFP => 0b10010101,
            MBTI::INFJ => 0b10010110,
            MBTI::INTP => 0b10011001,
            MBTI::INTJ => 0b10011010,
            MBTI::ISFP => 0b10100101,
            MBTI::ISFJ => 0b10100110,
            MBTI::ISTP => 0b10101001,
            MBTI::ISTJ => 0b10101010,
        }
    }

    /// The dense index of this label in `[0, 16)`.
    pub open spec fn spec_index(self) -> usize {
        match self {
            MBTI::ENFP => 0,
            MBTI::ENFJ => 1,
            MBTI::ENTP => 2,
            MBTI::ENTJ => 3,
            MBTI::ESFP => 4,
            MBTI::ESFJ => 5,
            MBTI::ESTP => 6,
            MBTI::ESTJ => 7,
            MBTI::INFP => 8,
            MBTI::INFJ => 9,
            MBTI::INTP => 10,
            MBTI::INTJ => 11,
            MBTI::ISFP => 12,
            MBTI::ISFJ => 13,
            MBTI::ISTP => 14,
            MBTI::ISTJ => 15,
        }
    }

    /// The label with the given compact bit code, if the code is one of the
    /// 16 defined values.
    pub open spec fn spec_decode_bits(bits: u8) -> Option<MBTI> {
        if bits == 0b01010101 {
            Some(MBTI::ENFP)
        } else if bits == 0b01010110 {
            Some(MBTI::ENFJ)
        } else if bits == 0b01011001 {
            Some(MBTI::ENTP)
        } else if bits == 0b01011010 {
            Some(MBTI::ENTJ)
        } else if bits == 0b01100101 {
            Some(MBTI::ESFP)
        } else if bits == 0b01100110 {
            Some(MBTI::ESFJ)
        } else if bits == 0b01101001 {
            Some(MBTI::ESTP)
        } else if bits == 0b01101010 {
            Some(MBTI::ESTJ)
        } else if bits == 0b10010101 {
            Some(MBTI::INFP)
        } else if bits == 0b10010110 {
            Some(MBTI::INFJ)
        } else if bits == 0b10011001 {
            Some(MBTI::INTP)
        } else if bits == 0b10011010 {
            Some(MBTI::INTJ)
        } else if bits == 0b10100101 {
            Some(MBTI::ISFP)
        } else if bits == 0b10100110 {
            Some(MBTI::ISFJ)
        } else if bits == 0b10101001 {
            Some(MBTI::ISTP)
        } else if bits == 0b10101010 {
            Some(MBTI::ISTJ)
        } else {
            None
        }
    }

    /// The label at the given dense index, if the index lies in `[0, 16)`.
    pub open spec fn spec_at_index(index: usize) -> Option<MBTI> {
        if index == 0 {
            Some(MBTI::ENFP)
        } else if index == 1 {
            Some(MBTI::ENFJ)
        } else if index == 2 {
            Some(MBTI::ENTP)
        } else if index == 3 {
            Some(MBTI::ENTJ)
        } else if index == 4 {
            Some(MBTI::ESFP)
        } else if index == 5 {
            Some(MBTI::ESFJ)
        } else if index == 6 {
            Some(MBTI::ESTP)
        } else if index == 7 {
            Some(MBTI::ESTJ)
        } else if index == 8 {
            Some(MBTI::INFP)
        } else if index == 9 {
            Some(MBTI::INFJ)
        } else if index == 10 {
            Some(MBTI::INTP)
        } else if index == 11 {
            Some(MBTI::INTJ)
        } else if index == 12 {
            Some(MBTI::ISFP)
        } else if index == 13 {
            Some(MBTI::ISFJ)
        } else if index == 14 {
            Some(MBTI::ISTP)
        } else if index == 15 {
            Some(MBTI::ISTJ)
        } else {
            None
        }
    }

    /// The four-letter name of this label.
    pub open spec fn spec_name(self) -> Seq<char> {
        match self {
            MBTI::ENFP => "ENFP"@,
            MBTI::ENFJ => "ENFJ"@,
            MBTI::ENTP => "ENTP"@,
            MBTI::ENTJ => "ENTJ"@,
            MBTI::ESFP => "ESFP"@,
            MBTI::ESFJ => "ESFJ"@,
            MBTI::ESTP => "ESTP"@,
            MBTI::ESTJ => "ESTJ"@,
            MBTI::INFP => "INFP"@,
            MBTI::INFJ => "INFJ"@,
            MBTI::INTP => "INTP"@,
            MBTI::INTJ => "INTJ"@,
            MBTI::ISFP => "ISFP"@,
            MBTI::ISFJ => "ISFJ"@,
            MBTI::ISTP => "ISTP"@,
            MBTI::ISTJ => "ISTJ"@,
        }
    }

    /// The label written with the given four letters, if any.
    pub open spec fn spec_from_name(s: Seq<char>) -> Option<MBTI> {
        if s == "ENFP"@ {
            Some(MBTI::ENFP)
        } else if s == "ENFJ"@ {
            Some(MBTI::ENFJ)
        } else if s == "ENTP"@ {
            Some(MBTI::ENTP)
        } else if s == "ENTJ"@ {
            Some(MBTI::ENTJ)
        } else if s == "ESFP"@ {
            Some(MBTI::ESFP)
        } else if s == "ESFJ"@ {
            Some(MBTI::ESFJ)
        } else if s == "ESTP"@ {
            Some(MBTI::ESTP)
        } else if s == "ESTJ"@ {
            Some(MBTI::ESTJ)
        } else if s == "INFP"@ {
            Some(MBTI::INFP)
        } else if s == "INFJ"@ {
            Some(MBTI::INFJ)
        } else if s == "INTP"@ {
            Some(MBTI::INTP)
        } else if s == "INTJ"@ {
            Some(MBTI::INTJ)
        } else if s == "ISFP"@ {
            Some(MBTI::ISFP)
        } else if s == "ISFJ"@ {
            Some(MBTI::ISFJ)
        } else if s == "ISTP"@ {
            Some(MBTI::ISTP)
        } else if s == "ISTJ"@ {
            Some(MBTI::ISTJ)
        } else {
            None
        }
    }

    /// Returns this label's four-letter name.
    pub fn name(self) -> (s: &'static str)
        ensures
            s@ == self.spec_name(),
    {
        match self {
            MBTI::ENFP => "ENFP",
            MBTI::ENFJ => "ENFJ",
            MBTI::ENTP => "ENTP",
            MBTI::ENTJ => "ENTJ",
            MBTI::ESFP => "ESFP",
            MBTI::ESFJ => "ESFJ",
            MBTI::ESTP => "ESTP",
            MBTI::ESTJ => "ESTJ",
            MBTI::INFP => "INFP",
            MBTI::INFJ => "INFJ",
            MBTI::INTP => "INTP",
            MBTI::INTJ => "INTJ",
            MBTI::ISFP => "ISFP",
            MBTI::ISFJ => "ISFJ",
            MBTI::ISTP => "ISTP",
            MBTI::ISTJ => "ISTJ",
        }
    }

    /// Decodes a four-letter name. Succeeds if and only if the name is one
    /// of the 16 labels' names, written exactly; anything else is an error.
    pub fn from_name(s: &str) -> (r: Result<MBTI, LabelError>)
        ensures
            (match MBTI::spec_from_name(s@) {
                Some(l) => r == Ok::<MBTI, LabelError>(l),
                None => r == Err::<MBTI, LabelError>(LabelError),
            }),
    {
        proof {
            reveal_strlit("ENFP");
            reveal_strlit("ENFJ");
            reveal_strlit("ENTP");
            reveal_strlit("ENTJ");
            reveal_strlit("ESFP");
            reveal_strlit("ESFJ");
            reveal_strlit("ESTP");
            reveal_strlit("ESTJ");
            reveal_strlit("INFP");
            reveal_strlit("INFJ");
            reveal_strlit("INTP");
            reveal_strlit("INTJ");
            reveal_strlit("ISFP");
            reveal_strlit("ISFJ");
            reveal_strlit("ISTP");
            reveal_strlit("ISTJ");
        }
        if s.unicode_len() != 4 {
            return Err(LabelError);
        }
        let c0 = s.get_char(0);
        let c1 = s.get_char(1);
        let c2 = s.get_char(2);
        let c3 = s.get_char(3);
        match (c0, c1, c2, c3) {
            ('E', 'N', 'F', 'P') => {
                proof {
                    assert(s@ =~= "ENFP"@);
                }
                Ok(MBTI::ENFP)
            },
            ('E', 'N', 'F', 'J') => {
                proof {
                    assert(s@ =~= "ENFJ"@);
                }
                Ok(MBTI::ENFJ)
            },
            ('E', 'N', 'T', 'P') => {
                proof {
                    assert(s@ =~= "ENTP"@);
                }
                Ok(MBTI::ENTP)
            },
            ('E', 'N', 'T', 'J') => {
                proof {
                    assert(s@ =~= "ENTJ"@);
                }
                Ok(MBTI::ENTJ)
            },
            ('E', 'S', 'F', 'P') => {
                proof {
                    assert(s@ =~= "ESFP"@);
                }
                Ok(MBTI::ESFP)
            },
            ('E', 'S', 'F', 'J') => {
                proof {
                    assert(s@ =~= "ESFJ"@);
                }
                Ok(MBTI::ESFJ)
            },
            ('E', 'S', 'T', 'P') => {
                proof {
                    assert(s@ =~= "ESTP"@);
                }
                Ok(MBTI::ESTP)
            },
            ('E', 'S', 'T', 'J') => {
                proof {
                    assert(s@ =~= "ESTJ"@);
                }
                Ok(MBTI::ESTJ)
            },
            ('I', 'N', 'F', 'P') => {
                proof {
                    assert(s@ =~= "INFP"@);
                }
                Ok(MBTI::INFP)
            },
            ('I', 'N', 'F', 'J') => {
                proof {
                    assert(s@ =~= "INFJ"@);
                }
                Ok(MBTI::INFJ)
            },
            ('I', 'N', 'T', 'P') => {
                proof {
                    assert(s@ =~= "INTP"@);
                }
                Ok(MBTI::INTP)
            },
            ('I', 'N', 'T', 'J') => {
                proof {
                    assert(s@ =~= "INTJ"@);
                }
                Ok(MBTI::INTJ)
            },
            ('I', 'S', 'F', 'P') => {
                proof {
                    assert(s@ =~= "ISFP"@);
                }
                Ok(MBTI::ISFP)
            },
            ('I', 'S', 'F', 'J') => {
                proof {
                    assert(s@ =~= "ISFJ"@);
                }
                Ok(MBTI::ISFJ)
            },
            ('I', 'S', 'T', 'P') => {
                proof {
                    assert(s@ =~= "ISTP"@);
                }
                Ok(MBTI::ISTP)
            },
            ('I', 'S', 'T', 'J') => {
                proof {
                    assert(s@ =~= "ISTJ"@);
                }
                Ok(MBTI::ISTJ)
            },
            _ => Err(LabelError),
        }
    }

    /// Returns this label's compact bit code.
    pub fn code(self) -> (bits: u8)
        ensures
            bits == self.spec_code(),
    {
        match self {
            MBTI::ENFP => 0b01010101,
            MBTI::ENFJ => 0b01010110,
            MBTI::ENTP => 0b01011001,
            MBTI::ENTJ => 0b01011010,
            MBTI::ESFP => 0b01100101,
            MBTI::ESFJ => 0b01100110,
            MBTI::ESTP => 0b01101001,
            MBTI::ESTJ => 0b01101010,
            MBTI::INFP => 0b10010101,
            MBTI::INFJ => 0b10010110,
            MBTI::INTP => 0b10011001,
            MBTI::INTJ => 0b10011010,
            MBTI::ISFP => 0b10100101,
            MBTI::ISFJ => 0b10100110,
            MBTI::ISTP => 0b10101001,
            MBTI::ISTJ => 0b10101010,
        }
    }

    /// Returns this label's dense index; the index always lies in `[0, 16)`.
    pub fn to_index(self) -> (index: usize)
        ensures
            index == self.spec_index(),
            index < 16,
    {
        match self {
            MBTI::ENFP => 0,
            MBTI::ENFJ => 1,
            MBTI::ENTP => 2,
            MBTI::ENTJ => 3,
            MBTI::ESFP => 4,
            MBTI::ESFJ => 5,
            MBTI::ESTP => 6,
            MBTI::ESTJ => 7,
            MBTI::INFP => 8,
            MBTI::INFJ => 9,
            MBTI::INTP => 10,
            MBTI::INTJ => 11,
            MBTI::ISFP => 12,
            MBTI::ISFJ => 13,
            MBTI::ISTP => 14,
            MBTI::ISTJ => 15,
        }
    }

    /// Decodes a compact bit code. Succeeds if and only if the code is one
    /// of the 16 defined values; any other pattern is an error, never a
    /// default label.
    pub fn try_from_bits(bits: u8) -> (r: Result<MBTI, LabelError>)
        ensures
            (match MBTI::spec_decode_bits(bits) {
                Some(l) => r == Ok::<MBTI, LabelError>(l),
                None => r == Err::<MBTI, LabelError>(LabelError),
            }),
    {
        match bits {
            0b01010101 => Ok(MBTI::ENFP),
            0b01010110 => Ok(MBTI::ENFJ),
            0b01011001 => Ok(MBTI::ENTP),
            0b01011010 => Ok(MBTI::ENTJ),
            0b01100101 => Ok(MBTI::ESFP),
            0b01100110 => Ok(MBTI::ESFJ),
            0b01101001 => Ok(MBTI::ESTP),
            0b01101010 => Ok(MBTI::ESTJ),
            0b10010101 => Ok(MBTI::INFP),
            0b10010110 => Ok(MBTI::INFJ),
            0b10011001 => Ok(MBTI::INTP),
            0b10011010 => Ok(MBTI::INTJ),
            0b10100101 => Ok(MBTI::ISFP),
            0b10100110 => Ok(MBTI::ISFJ),
            0b10101001 => Ok(MBTI::ISTP),
            0b10101010 => Ok(MBTI::ISTJ),
            _ => Err(LabelError),
        }
    }

    /// Decodes a dense index. Succeeds if and only if the index lies in
    /// `[0, 16)`; any other index is an error, never a clamped label.
    pub fn from_index(index: usize) -> (r: Result<MBTI, LabelError>)
        ensures
            (match MBTI::spec_at_index(index) {
                Some(l) => r == Ok::<MBTI, LabelError>(l),
                None => r == Err::<MBTI, LabelError>(LabelError),
            }),
            index < 16 <==> r is Ok,
    {
        match index {
            0 => Ok(MBTI::ENFP),
            1 => Ok(MBTI::ENFJ),
            2 => Ok(MBTI::ENTP),
            3 => Ok(MBTI::ENTJ),
            4 => Ok(MBTI::ESFP),
            5 => Ok(MBTI::ESFJ),
            6 => Ok(MBTI::ESTP),
            7 => Ok(MBTI::ESTJ),
            8 => Ok(MBTI::INFP),
            9 => Ok(MBTI::INFJ),
            10 => Ok(MBTI::INTP),
            11 => Ok(MBTI::INTJ),
            12 => Ok(MBTI::ISFP),
            13 => Ok(MBTI::ISFJ),
            14 => Ok(MBTI::ISTP),
            15 => Ok(MBTI::ISTJ),
            _ => Err(LabelError),
        }
    }
}

/// The dense-index codec is a bijection: decoding a label's own index gives
/// the label back, on all 16 labels.
pub proof fn lemma_index_round_trip(l: MBTI)
    ensures
        MBTI::spec_at_index(l.spec_index()) == Some(l),
{
}

/// Decoding a dense index succeeds exactly on `[0, 16)`, and a successful
/// decode returns the one label whose index was given.
pub proof fn lemma_index_decode_inverse(index: usize)
    ensures
        MBTI::spec_at_index(index) is Some <==> index < 16,
        (match MBTI::spec_at_index(index) {
            Some(l) => l.spec_index() == index,
            None => true,
        }),
{
}

/// The bit-code codec is a bijection: decoding a label's own code gives the
/// label back, on all 16 labels.
pub proof fn lemma_bits_round_trip(l: MBTI)
    ensures
        MBTI::spec_decode_bits(l.spec_code()) == Some(l),
{
}

/// A successful bit-code decode returns the one label whose code was given;
/// decoding fails exactly on the patterns that are no label's code.
pub proof fn lemma_bits_decode_inverse(bits: u8)
    ensures
        (match MBTI::spec_decode_bits(bits) {
            Some(l) => l.spec_code() == bits,
            None => forall|l: MBTI| l.spec_code() != bits,
        }),
{
    if MBTI::spec_decode_bits(bits) is None {
        assert forall|l: MBTI| l.spec_code() != bits by {
            match l {
                MBTI::ENFP => {},
                MBTI::ENFJ => {},
                MBTI::ENTP => {},
                MBTI::ENTJ => {},
                MBTI::ESFP => {},
                MBTI::ESFJ => {},
                MBTI::ESTP => {},
                MBTI::ESTJ => {},
                MBTI::INFP => {},
                MBTI::INFJ => {},
                MBTI::INTP => {},
                MBTI::INTJ => {},
                MBTI::ISFP => {},
                MBTI::ISFJ => {},
                MBTI::ISTP => {},
                MBTI::ISTJ => {},
            }
        }
    }
}

/// The name codec is a bijection: decoding a label's own four-letter name
/// gives the label back, on all 16 labels.
pub proof fn lemma_name_round_trip(l: MBTI)
    ensures
        MBTI::spec_from_name(l.spec_name()) == Some(l),
{
    reveal_strlit("ENFP");
    reveal_strlit("ENFJ");
    reveal_strlit("ENTP");
    reveal_strlit("ENTJ");
    reveal_strlit("ESFP");
    reveal_strlit("ESFJ");
    reveal_strlit("ESTP");
    reveal_strlit("ESTJ");
    reveal_strlit("INFP");
    reveal_strlit("INFJ");
    reveal_strlit("INTP");
    reveal_strlit("INTJ");
    reveal_strlit("ISFP");
    reveal_strlit("ISFJ");
    reveal_strlit("ISTP");
    reveal_strlit("ISTJ");
    assert("ENFP"@.len() == 4 && "ENFP"@[0] == 'E' && "ENFP"@[1] == 'N' && "ENFP"@[2] == 'F' && "ENFP"@[3] == 'P');
    assert("ENFJ"@.len() == 4 && "ENFJ"@[0] == 'E' && "ENFJ"@[1] == 'N' && "ENFJ"@[2] == 'F' && "ENFJ"@[3] == 'J');
    assert("ENTP"@.len() == 4 && "ENTP"@[0] == 'E' && "ENTP"@[1] == 'N' && "ENTP"@[2] == 'T' && "ENTP"@[3] == 'P');
    assert("ENTJ"@.len() == 4 && "ENTJ"@[0] == 'E' && "ENTJ"@[1] == 'N' && "ENTJ"@[2] == 'T' && "ENTJ"@[3] == 'J');
    assert("ESFP"@.len() == 4 && "ESFP"@[0] == 'E' && "ESFP"@[1] == 'S' && "ESFP"@[2] == 'F' && "ESFP"@[3] == 'P');
    assert("ESFJ"@.len() == 4 && "ESFJ"@[0] == 'E' && "ESFJ"@[1] == 'S' && "ESFJ"@[2] == 'F' && "ESFJ"@[3] == 'J');
    assert("ESTP"@.len() == 4 && "ESTP"@[0] == 'E' && "ESTP"@[1] == 'S' && "ESTP"@[2] == 'T' && "ESTP"@[3] == 'P');
    assert("ESTJ"@.len() == 4 && "ESTJ"@[0] == 'E' && "ESTJ"@[1] == 'S' && "ESTJ"@[2] == 'T' && "ESTJ"@[3] == 'J');
    assert("INFP"@.len() == 4 && "INFP"@[0] == 'I' && "INFP"@[1] == 'N' && "INFP"@[2] == 'F' && "INFP"@[3] == 'P');
    assert("INFJ"@.len() == 4 && "INFJ"@[0] == 'I' && "INFJ"@[1] == 'N' && "INFJ"@[2] == 'F' && "INFJ"@[3] == 'J');
    assert("INTP"@.len() == 4 && "INTP"@[0] == 'I' && "INTP"@[1] == 'N' && "INTP"@[2] == 'T' && "INTP"@[3] == 'P');
    assert("INTJ"@.len() == 4 && "INTJ"@[0] == 'I' && "INTJ"@[1] == 'N' && "INTJ"@[2] == 'T' && "INTJ"@[3] == 'J');
    assert("ISFP"@.len() == 4 && "ISFP"@[0] == 'I' && "ISFP"@[1] == 'S' && "ISFP"@[2] == 'F' && "ISFP"@[3] == 'P');
    assert("ISFJ"@.len() == 4 && "ISFJ"@[0] == 'I' && "ISFJ"@[1] == 'S' && "ISFJ"@[2] == 'F' && "ISFJ"@[3] == 'J');
    assert("ISTP"@.len() == 4 && "ISTP"@[0] == 'I' && "ISTP"@[1] == 'S' && "ISTP"@[2] == 'T' && "ISTP"@[3] == 'P');
    assert("ISTJ"@.len() == 4 && "ISTJ"@[0] == 'I' && "ISTJ"@[1] == 'S' && "ISTJ"@[2] == 'T' && "ISTJ"@[3] == 'J');
    match l {
        MBTI::ENFP => {
            assert(MBTI::spec_from_name(l.spec_name()) == Some(MBTI::ENFP));
        },
        MBTI::ENFJ => {
            assert(MBTI::spec_from_name(l.spec_name()) == Some(MBTI::ENFJ));
        },
        MBTI::ENTP => {
            assert(MBTI::spec_from_name(l.spec_name()) == Some(MBTI::ENTP));
        },
        MBTI::ENTJ => {
            assert(MBTI::spec_from_name(l.spec_name()) == Some(MBTI::ENTJ));
        },
        MBTI::ESFP => {
            assert(MBTI::spec_from_name(l.spec_name()) == Some(MBTI::ESFP));
        },
        MBTI::ESFJ => {
            assert(MBTI::spec_from_name(l.spec_name()) == Some(MBTI::ESFJ));
        },
        MBTI::ESTP => {
            assert(MBTI::spec_from_name(l.spec_name()) == Some(MBTI::ESTP));
        },
        MBTI::ESTJ => {
            assert(MBTI::spec_from_name(l.spec_name()) == Some(MBTI::ESTJ));
        },
        MBTI::INFP => {
            assert(MBTI::spec_from_name(l.spec_name()) == Some(MBTI::INFP));
        },
        MBTI::INFJ => {
            assert(MBTI::spec_from_name(l.spec_name()) == Some(MBTI::INFJ));
        },
        MBTI::INTP => {
            assert(MBTI::spec_from_name(l.spec_name()) == Some(MBTI::INTP));
        },
        MBTI::INTJ => {
            assert(MBTI::spec_from_name(l.spec_name()) == Some(MBTI::INTJ));
        },
        MBTI::ISFP => {
            assert(MBTI::spec_from_name(l.spec_name()) == Some(MBTI::ISFP));
        },
        MBTI::ISFJ => {
            assert(MBTI::spec_from_name(l.spec_name()) == Some(MBTI::ISFJ));
        },
        MBTI::ISTP => {
            assert(MBTI::spec_from_name(l.spec_name()) == Some(MBTI::ISTP));
        },
        MBTI::ISTJ => {
            assert(MBTI::spec_from_name(l.spec_name()) == Some(MBTI::ISTJ));
        },
    }
}

/// A successful name decode returns the one label whose name was given.
pub proof fn lemma_name_decode_inverse(s: Seq<char>)
    ensures
        (match MBTI::spec_from_name(s) {
            Some(l) => l.spec_name() == s,
            None => true,
        }),
{
}

/// A label's compact code is exactly the four flags of its letters, one per
/// opposite pair, combined into one byte.
pub proof fn lemma_code_is_letter_flags(l: MBTI)
    ensures
        ({
            let (a, b, c, d) = l.spec_letters();
            l.spec_code() == a.spec_flag() | b.spec_flag() | c.spec_flag() | d.spec_flag()
        }),
{
    match l {
        MBTI::ENFP => {
            assert(0b01000000u8 | 0b00010000u8 | 0b00000100u8 | 0b00000001u8 == 0b01010101u8)
                by (bit_vector);
        },
        MBTI::ENFJ => {
            assert(0b01000000u8 | 0b00010000u8 | 0b00000100u8 | 0b00000010u8 == 0b01010110u8)
                by (bit_vector);
        },
        MBTI::ENTP => {
            assert(0b01000000u8 | 0b00010000u8 | 0b00001000u8 | 0b00000001u8 == 0b01011001u8)
                by (bit_vector);
        },
        MBTI::ENTJ => {
            assert(0b01000000u8 | 0b00010000u8 | 0b00001000u8 | 0b00000010u8 == 0b01011010u8)
                by (bit_vector);
        },
        MBTI::ESFP => {
            assert(0b01000000u8 | 0b00100000u8 | 0b00000100u8 | 0b00000001u8 == 0b01100101u8)
                by (bit_vector);
        },
        MBTI::ESFJ => {
            assert(0b01000000u8 | 0b00100000u8 | 0b00000100u8 | 0b00000010u8 == 0b01100110u8)
                by (bit_vector);
        },
        MBTI::ESTP => {
            assert(0b01000000u8 | 0b00100000u8 | 0b00001000u8 | 0b00000001u8 == 0b01101001u8)
                by (bit_vector);
        },
        MBTI::ESTJ => {
            assert(0b01000000u8 | 0b00100000u8 | 0b00001000u8 | 0b00000010u8 == 0b01101010u8)
                by (bit_vector);
        },
        MBTI::INFP => {
            assert(0b10000000u8 | 0b00010000u8 | 0b00000100u8 | 0b00000001u8 == 0b10010101u8)
                by (bit_vector);
        },
        MBTI::INFJ => {
            assert(0b10000000u8 | 0b00010000u8 | 0b00000100u8 | 0b00000010u8 == 0b10010110u8)
                by (bit_vector);
        },
        MBTI::INTP => {
            assert(0b10000000u8 | 0b00010000u8 | 0b00001000u8 | 0b00000001u8 == 0b10011001u8)
                by (bit_vector);
        },
        MBTI::INTJ => {
            assert(0b10000000u8 | 0b00010000u8 | 0b00001000u8 | 0b00000010u8 == 0b10011010u8)
                by (bit_vector);
        },
        MBTI::ISFP => {
            assert(0b10000000u8 | 0b00100000u8 | 0b00000100u8 | 0b00000001u8 == 0b10100101u8)
                by (bit_vector);
        },
        MBTI::ISFJ => {
            assert(0b10000000u8 | 0b00100000u8 | 0b00000100u8 | 0b00000010u8 == 0b10100110u8)
                by (bit_vector);
        },
        MBTI::ISTP => {
            assert(0b10000000u8 | 0b00100000u8 | 0b00001000u8 | 0b00000001u8 == 0b10101001u8)
                by (bit_vector);
        },
        MBTI::ISTJ => {
            assert(0b10000000u8 | 0b00100000u8 | 0b00001000u8 | 0b00000010u8 == 0b10101010u8)
                by (bit_vector);
        },
    }
}

} // verus!
