//! The Permanent Account Number: ten characters, three letters, the holder
//! type, a letter of the holder's name, four digits and a check letter.

use vstd::prelude::*;
use crate::ValidationError;
use crate::utils::{all_digits, all_upper, digit_span, is_upper, is_upper_char, push_char, span, upper_span};

verus! {

/// The kind of holder, the fourth character of a PAN.
#[derive(Debug, Clone, Copy, PartialEq, Eq, Structural)]
pub enum HolderType {
    AOP,
    BOI,
    Company,
    Firm,
    Government,
    HUF,
    LocalAuthority,
    ArtificialJuridicalPerson,
    Person,
    Trust,
}

impl HolderType {
    /// The letter that stands for the holder type.
    pub open spec fn letter(self) -> char {
        match self {
            HolderType::AOP => 'A',
            HolderType::BOI => 'B',
            HolderType::Company => 'C',
            HolderType::Firm => 'F',
            HolderType::Government => 'G',
            HolderType::HUF => 'H',
            HolderType::LocalAuthority => 'L',
            HolderType::ArtificialJuridicalPerson => 'J',
            HolderType::Person => 'P',
            HolderType::Trust => 'T',
        }
    }

    /// The holder type that the letter `c` stands for, if any.
    pub open spec fn of_letter(c: char) -> Option<HolderType> {
        match c {
            'A' => Some(HolderType::AOP),
            'B' => Some(HolderType::BOI),
            'C' => Some(HolderType::Company),
            'F' => Some(HolderType::Firm),
            'G' => Some(HolderType::Government),
            'H' => Some(HolderType::HUF),
            'L' => Some(HolderType::LocalAuthority),
            'J' => Some(HolderType::ArtificialJuridicalPerson),
            'P' => Some(HolderType::Person),
            'T' => Some(HolderType::Trust),
            _ => None,
        }
    }

    /// The letter that stands for the holder type.
    pub fn code(&self) -> (r: char)
        ensures
            r == self.letter(),
    {
        match self {
            HolderType::AOP => 'A',
            HolderType::BOI => 'B',
            HolderType::Company => 'C',
            HolderType::Firm => 'F',
            HolderType::Government => 'G',
            HolderType::HUF => 'H',
            HolderType::LocalAuthority => 'L',
            HolderType::ArtificialJuridicalPerson => 'J',
            HolderType::Person => 'P',
            HolderType::Trust => 'T',
        }
    }

    /// The holder type that the letter `c` stands for, if any.
    pub fn from_letter(c: char) -> (r: Option<HolderType>)
        ensures
            r == HolderType::of_letter(c),
    {
        match c {
            'A' => Some(HolderType::AOP),
            'B' => Some(HolderType::BOI),
            'C' => Some(HolderType::Company),
            'F' => Some(HolderType::Firm),
            'G' => Some(HolderType::Government),
            'H' => Some(HolderType::HUF),
            'L' => Some(HolderType::LocalAuthority),
            'J' => Some(HolderType::ArtificialJuridicalPerson),
            'P' => Some(HolderType::Person),
            'T' => Some(HolderType::Trust),
            _ => None,
        }
    }
}

/// Why a PAN was refused.
#[derive(Debug, Clone, Copy, PartialEq, Eq, Structural)]
pub enum PanError {
    /// The fourth character names no holder type.
    InvalidHolderType,
    /// The four characters of the registration number are not all digits.
    InvalidRegistrationNumber,
    /// The length is not ten, or a letter is missing where one is due.
    Malformed,
}

/// The fields of a PAN.
#[derive(Debug, Clone)]
pub struct PanMeta {
    pub code: String,
    pub holder_type: HolderType,
    pub name_char: char,
    pub registration_number: String,
    pub checksum: char,
}

/// The fields of a PAN as mathematical values.
pub struct PanView {
    pub code: Seq<char>,
    pub holder_type: HolderType,
    pub name_char: char,
    pub registration_number: Seq<char>,
    pub checksum: char,
}

impl View for PanMeta {
    type V = PanView;

    open spec fn view(&self) -> PanView {
        PanView {
            code: self.code@,
            holder_type: self.holder_type,
            name_char: self.name_char,
            registration_number: self.registration_number@,
            checksum: self.checksum,
        }
    }
}

/// The text of a PAN with the fields `v`.
pub open spec fn pan_text(v: PanView) -> Seq<char> {
    v.code + seq![v.holder_type.letter(), v.name_char] + v.registration_number + seq![v.checksum]
}

/// What reading `s` as a PAN gives: the fields, or the first rule that fails.
pub open spec fn parse_pan(s: Seq<char>) -> Result<PanView, PanError> {
    if s.len() != 10 {
        Err(PanError::Malformed)
    } else if !all_upper(s.subrange(0, 3)) {
        Err(PanError::Malformed)
    } else if HolderType::of_letter(s[3]) is None {
        Err(PanError::InvalidHolderType)
    } else if !is_upper(s[4]) {
        Err(PanError::Malformed)
    } else if !all_digits(s.subrange(5, 9)) {
        Err(PanError::InvalidRegistrationNumber)
    } else if !is_upper(s[9]) {
        Err(PanError::Malformed)
    } else {
        Ok(
            PanView {
                code: s.subrange(0, 3),
                holder_type: HolderType::of_letter(s[3])->Some_0,
                name_char: s[4],
                registration_number: s.subrange(5, 9),
                checksum: s[9],
            },
        )
    }
}

/// Reads `s` as a PAN.
pub(crate) fn read_pan(s: &str) -> (r: Result<PanMeta, PanError>)
    ensures
        match parse_pan(s@) {
            Ok(v) => r matches Ok(m) && m@ == v,
            Err(e) => r matches Err(f) && f == e,
        },
{
    if s.unicode_len() != 10 {
        return Err(PanError::Malformed);
    }
    if !upper_span(s, 0, 3) {
        return Err(PanError::Malformed);
    }
    let holder_type = match HolderType::from_letter(s.get_char(3)) {
        Some(h) => h,
        None => {
            return Err(PanError::InvalidHolderType);
        },
    };
    let name_char = s.get_char(4);
    if !is_upper_char(name_char) {
        return Err(PanError::Malformed);
    }
    if !digit_span(s, 5, 9) {
        return Err(PanError::InvalidRegistrationNumber);
    }
    let checksum = s.get_char(9);
    if !is_upper_char(checksum) {
        return Err(PanError::Malformed);
    }
    Ok(
        PanMeta {
            code: span(s, 0, 3),
            holder_type,
            name_char,
            registration_number: span(s, 5, 9),
            checksum,
        },
    )
}

impl PanMeta {
    /// Reads a PAN; a failure is reported as `ValidationError::Pan`.
    pub fn from_pan(pan: &str) -> (r: Result<PanMeta, ValidationError>)
        ensures
            match parse_pan(pan@) {
                Ok(v) => r matches Ok(m) && m@ == v,
                Err(e) => r == Err::<PanMeta, ValidationError>(ValidationError::Pan(e)),
            },
            pan@.len() != 10 ==> r == Err::<PanMeta, ValidationError>(
                ValidationError::Pan(PanError::Malformed),
            ),
    {
        match read_pan(pan) {
            Ok(m) => Ok(m),
            Err(e) => Err(ValidationError::Pan(e)),
        }
    }

    /// The ten-character text of the PAN.
    pub fn pan(&self) -> (r: String)
        ensures
            r@ == pan_text(self@),
    {
        let mut r = self.code.clone();
        push_char(&mut r, self.holder_type.code());
        push_char(&mut r, self.name_char);
        r.append(self.registration_number.as_str());
        push_char(&mut r, self.checksum);
        proof {
            assert(r@ =~= pan_text(self@));
        }
        r
    }
}

/// Reading a valid PAN and writing it out again gives back the same text.
pub proof fn lemma_pan_round_trip(s: Seq<char>)
    requires
        parse_pan(s) is Ok,
    ensures
        pan_text(parse_pan(s)->Ok_0) == s,
{
    assert(pan_text(parse_pan(s)->Ok_0) =~= s);
}

/// Writing out the fields that a read produced and reading the text again
/// gives the same fields.
pub proof fn lemma_pan_reparse(s: Seq<char>)
    requires
        parse_pan(s) is Ok,
    ensures
        parse_pan(pan_text(parse_pan(s)->Ok_0)) == parse_pan(s),
{
    lemma_pan_round_trip(s);
}

/// A PAN of any length but ten is refused.
pub proof fn lemma_pan_length(s: Seq<char>)
    requires
        s.len() != 10,
    ensures
        parse_pan(s) == Err::<PanView, PanError>(PanError::Malformed),
{
}

/// Two records are equal when their fields are.
impl PartialEq for PanMeta {
    fn eq(&self, other: &PanMeta) -> (r: bool) {
        self.code == other.code && self.holder_type == other.holder_type && self.name_char
            == other.name_char && self.registration_number == other.registration_number
            && self.checksum == other.checksum
    }
}

impl vstd::std_specs::cmp::PartialEqSpecImpl for PanMeta {
    open spec fn obeys_eq_spec() -> bool {
        true
    }

    open spec fn eq_spec(&self, other: &PanMeta) -> bool {
        self@ == other@
    }
}

} // verus!
