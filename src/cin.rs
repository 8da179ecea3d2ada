//! The Corporate Identification Number: twenty-one characters, listing
//! status, industry code, state mnemonic, year of incorporation, ownership
//! class and registration number.

use vstd::prelude::*;
use vstd::string::*;
use crate::ValidationError;
use crate::utils::{all_digits, all_upper, digit_span, is_upper, is_upper_char, span, upper_span, lemma_jurisdiction_bijection, State};

verus! {

/// The ownership class of a company, written as its own three letters.
#[derive(Debug, Clone, Copy, PartialEq, Eq, Structural)]
pub enum Classification {
    FLC,
    FTC,
    GAP,
    GAT,
    GOI,
    NPL,
    OPC,
    PLC,
    PTC,
    SGC,
    ULL,
    ULT,
}

impl Classification {
    /// The three letters of the class.
    pub open spec fn letters(self) -> Seq<char> {
        match self {
            Classification::FLC => seq!['F', 'L', 'C'],
            Classification::FTC => seq!['F', 'T', 'C'],
            Classification::GAP => seq!['G', 'A', 'P'],
            Classification::GAT => seq!['G', 'A', 'T'],
            Classification::GOI => seq!['G', 'O', 'I'],
            Classification::NPL => seq!['N', 'P', 'L'],
            Classification::OPC => seq!['O', 'P', 'C'],
            Classification::PLC => seq!['P', 'L', 'C'],
            Classification::PTC => seq!['P', 'T', 'C'],
            Classification::SGC => seq!['S', 'G', 'C'],
            Classification::ULL => seq!['U', 'L', 'L'],
            Classification::ULT => seq!['U', 'L', 'T'],
        }
    }

    /// The class written `a`, `b`, `c`, if any.
    pub open spec fn of_letters(a: char, b: char, c: char) -> Option<Classification> {
        match (a, b, c) {
            ('F', 'L', 'C') => Some(Classification::FLC),
            ('F', 'T', 'C') => Some(Classification::FTC),
            ('G', 'A', 'P') => Some(Classification::GAP),
            ('G', 'A', 'T') => Some(Classification::GAT),
            ('G', 'O', 'I') => Some(Classification::GOI),
            ('N', 'P', 'L') => Some(Classification::NPL),
            ('O', 'P', 'C') => Some(Classification::OPC),
            ('P', 'L', 'C') => Some(Classification::PLC),
            ('P', 'T', 'C') => Some(Classification::PTC),
            ('S', 'G', 'C') => Some(Classification::SGC),
            ('U', 'L', 'L') => Some(Classification::ULL),
            ('U', 'L', 'T') => Some(Classification::ULT),
            _ => None,
        }
    }

    /// The three letters of the class.
    pub fn code(&self) -> (r: &str)
        ensures
            r@ == self.letters(),
    {
        match self {
            Classification::FLC => {
                proof { reveal_strlit("FLC"); }
                "FLC"
            },
            Classification::FTC => {
                proof { reveal_strlit("FTC"); }
                "FTC"
            },
            Classification::GAP => {
                proof { reveal_strlit("GAP"); }
                "GAP"
            },
            Classification::GAT => {
                proof { reveal_strlit("GAT"); }
                "GAT"
            },
            Classification::GOI => {
                proof { reveal_strlit("GOI"); }
                "GOI"
            },
            Classification::NPL => {
                proof { reveal_strlit("NPL"); }
                "NPL"
            },
            Classification::OPC => {
                proof { reveal_strlit("OPC"); }
                "OPC"
            },
            Classification::PLC => {
                proof { reveal_strlit("PLC"); }
                "PLC"
            },
            Classification::PTC => {
                proof { reveal_strlit("PTC"); }
                "PTC"
            },
            Classification::SGC => {
                proof { reveal_strlit("SGC"); }
                "SGC"
            },
            Classification::ULL => {
                proof { reveal_strlit("ULL"); }
                "ULL"
            },
            Classification::ULT => {
                proof { reveal_strlit("ULT"); }
                "ULT"
            },
        }
    }

    /// The class written `a`, `b`, `c`, if any.
    pub fn from_letters(a: char, b: char, c: char) -> (r: Option<Classification>)
        ensures
            r == Classification::of_letters(a, b, c),
    {
        match (a, b, c) {
            ('F', 'L', 'C') => Some(Classification::FLC),
            ('F', 'T', 'C') => Some(Classification::FTC),
            ('G', 'A', 'P') => Some(Classification::GAP),
            ('G', 'A', 'T') => Some(Classification::GAT),
            ('G', 'O', 'I') => Some(Classification::GOI),
            ('N', 'P', 'L') => Some(Classification::NPL),
            ('O', 'P', 'C') => Some(Classification::OPC),
            ('P', 'L', 'C') => Some(Classification::PLC),
            ('P', 'T', 'C') => Some(Classification::PTC),
            ('S', 'G', 'C') => Some(Classification::SGC),
            ('U', 'L', 'L') => Some(Classification::ULL),
            ('U', 'L', 'T') => Some(Classification::ULT),
            _ => None,
        }
    }
}

/// Each class is found again from its letters, and a lookup that succeeds
/// returns the class that the letters spell.
pub proof fn lemma_classification_bijection(c: Classification, a: char, b: char, d: char)
    ensures
        Classification::of_letters(c.letters()[0], c.letters()[1], c.letters()[2]) == Some(c),
        Classification::of_letters(a, b, d) == Some(c) ==> c.letters() == seq![a, b, d],
{
    assert(Classification::of_letters(a, b, d) == Some(c) ==> c.letters() =~= seq![a, b, d]);
}

/// Why a CIN was refused.
#[derive(Debug, Clone, Copy, PartialEq, Eq, Structural)]
pub enum CinError {
    /// The first character is neither `L` nor `U`.
    InvalidListingStatus,
    /// Two letters stand where the state is due, but they name no state.
    InvalidJurisdiction,
    /// Three letters stand where the class is due, but they name no class.
    InvalidClassification,
    /// The length is not twenty-one, or a digit or letter is missing where
    /// one is due.
    Malformed,
}

/// The fields of a CIN.
#[derive(Debug, Clone)]
pub struct CinMeta {
    pub listed: bool,
    pub industry_code: String,
    pub state: State,
    pub incorporation_year: String,
    pub classification: Classification,
    pub registration_number: String,
}

/// The fields of a CIN as mathematical values.
pub struct CinView {
    pub listed: bool,
    pub industry_code: Seq<char>,
    pub state: State,
    pub incorporation_year: Seq<char>,
    pub classification: Classification,
    pub registration_number: Seq<char>,
}

impl View for CinMeta {
    type V = CinView;

    open spec fn view(&self) -> CinView {
        CinView {
            listed: self.listed,
            industry_code: self.industry_code@,
            state: self.state,
            incorporation_year: self.incorporation_year@,
            classification: self.classification,
            registration_number: self.registration_number@,
        }
    }
}

/// The character for the listing status.
pub open spec fn listing_char(listed: bool) -> char {
    if listed {
        'L'
    } else {
        'U'
    }
}

/// The text of a CIN with the fields `v`.
pub open spec fn cin_text(v: CinView) -> Seq<char> {
    seq![listing_char(v.listed)] + v.industry_code + v.state.alpha() + v.incorporation_year
        + v.classification.letters() + v.registration_number
}

/// What reading `s` as a CIN gives: the fields, or the first rule that fails.
pub open spec fn parse_cin(s: Seq<char>) -> Result<CinView, CinError> {
    if s.len() != 21 {
        Err(CinError::Malformed)
    } else if s[0] != 'L' && s[0] != 'U' {
        Err(CinError::InvalidListingStatus)
    } else if !all_digits(s.subrange(1, 6)) {
        Err(CinError::Malformed)
    } else if !all_upper(s.subrange(6, 8)) {
        Err(CinError::Malformed)
    } else if State::of_alpha(s[6], s[7]) is None {
        Err(CinError::InvalidJurisdiction)
    } else if !all_digits(s.subrange(8, 12)) {
        Err(CinError::Malformed)
    } else if !all_upper(s.subrange(12, 15)) {
        Err(CinError::Malformed)
    } else if Classification::of_letters(s[12], s[13], s[14]) is None {
        Err(CinError::InvalidClassification)
    } else if !all_digits(s.subrange(15, 21)) {
        Err(CinError::Malformed)
    } else {
        Ok(
            CinView {
                listed: s[0] == 'L',
                industry_code: s.subrange(1, 6),
                state: State::of_alpha(s[6], s[7])->Some_0,
                incorporation_year: s.subrange(8, 12),
                classification: Classification::of_letters(s[12], s[13], s[14])->Some_0,
                registration_number: s.subrange(15, 21),
            },
        )
    }
}

impl CinMeta {
    /// Reads a CIN; a failure is reported as `ValidationError::Cin`.
    pub fn from_cin(cin: &str) -> (r: Result<CinMeta, ValidationError>)
        ensures
            match parse_cin(cin@) {
                Ok(v) => r matches Ok(m) && m@ == v,
                Err(e) => r == Err::<CinMeta, ValidationError>(ValidationError::Cin(e)),
            },
            cin@.len() != 21 ==> r == Err::<CinMeta, ValidationError>(
                ValidationError::Cin(CinError::Malformed),
            ),
    {
        let s = cin;
        if s.unicode_len() != 21 {
            return Err(ValidationError::Cin(CinError::Malformed));
        }
        let l = s.get_char(0);
        if l != 'L' && l != 'U' {
            return Err(ValidationError::Cin(CinError::InvalidListingStatus));
        }
        if !digit_span(s, 1, 6) {
            return Err(ValidationError::Cin(CinError::Malformed));
        }
        if !upper_span(s, 6, 8) {
            return Err(ValidationError::Cin(CinError::Malformed));
        }
        let state = match State::from_alpha(s.get_char(6), s.get_char(7)) {
            Some(st) => st,
            None => {
                return Err(ValidationError::Cin(CinError::InvalidJurisdiction));
            },
        };
        if !digit_span(s, 8, 12) {
            return Err(ValidationError::Cin(CinError::Malformed));
        }
        if !upper_span(s, 12, 15) {
            return Err(ValidationError::Cin(CinError::Malformed));
        }
        let classification = match Classification::from_letters(
            s.get_char(12),
            s.get_char(13),
            s.get_char(14),
        ) {
            Some(c) => c,
            None => {
                return Err(ValidationError::Cin(CinError::InvalidClassification));
            },
        };
        if !digit_span(s, 15, 21) {
            return Err(ValidationError::Cin(CinError::Malformed));
        }
        Ok(
            CinMeta {
                listed: l == 'L',
                industry_code: span(s, 1, 6),
                state,
                incorporation_year: span(s, 8, 12),
                classification,
                registration_number: span(s, 15, 21),
            },
        )
    }

    /// The twenty-one-character text of the CIN.
    pub fn cin(&self) -> (r: String)
        ensures
            r@ == cin_text(self@),
    {
        let mut r = if self.listed {
            String::from_str("L")
        } else {
            String::from_str("U")
        };
        proof {
            reveal_strlit("L");
            reveal_strlit("U");
        }
        r.append(self.industry_code.as_str());
        r.append(self.state.code());
        r.append(self.incorporation_year.as_str());
        r.append(self.classification.code());
        r.append(self.registration_number.as_str());
        proof {
            assert(r@ =~= cin_text(self@));
        }
        r
    }
}

/// Reading a valid CIN and writing it out again gives back the same text.
pub proof fn lemma_cin_round_trip(s: Seq<char>)
    requires
        parse_cin(s) is Ok,
    ensures
        cin_text(parse_cin(s)->Ok_0) == s,
{
    let v = parse_cin(s)->Ok_0;
    lemma_jurisdiction_bijection(v.state, s[6], s[7]);
    lemma_classification_bijection(v.classification, s[12], s[13], s[14]);
    assert(cin_text(v) =~= s);
}

/// Writing out the fields that a read produced and reading the text again
/// gives the same fields.
pub proof fn lemma_cin_reparse(s: Seq<char>)
    requires
        parse_cin(s) is Ok,
    ensures
        parse_cin(cin_text(parse_cin(s)->Ok_0)) == parse_cin(s),
{
    lemma_cin_round_trip(s);
}

/// A CIN of any length but twenty-one is refused.
pub proof fn lemma_cin_length(s: Seq<char>)
    requires
        s.len() != 21,
    ensures
        parse_cin(s) == Err::<CinView, CinError>(CinError::Malformed),
{
}

/// Putting two letters that name no state where a valid CIN has its state
/// gives a CIN that is refused for its state.
pub proof fn lemma_cin_unknown_state(s: Seq<char>, a: char, b: char)
    requires
        parse_cin(s) is Ok,
        is_upper(a),
        is_upper(b),
        State::of_alpha(a, b) is None,
    ensures
        parse_cin(s.update(6, a).update(7, b)) == Err::<CinView, CinError>(
            CinError::InvalidJurisdiction,
        ),
{
    let t = s.update(6, a).update(7, b);
    assert(t.subrange(1, 6) =~= s.subrange(1, 6));
    assert(t.subrange(6, 8) =~= seq![a, b]);
}

/// Two records are equal when their fields are.
impl PartialEq for CinMeta {
    fn eq(&self, other: &CinMeta) -> (r: bool) {
        self.listed == other.listed && self.industry_code == other.industry_code && self.state
            == other.state && self.incorporation_year == other.incorporation_year
            && self.classification == other.classification && self.registration_number
            == other.registration_number
    }
}

impl vstd::std_specs::cmp::PartialEqSpecImpl for CinMeta {
    open spec fn obeys_eq_spec() -> bool {
        true
    }

    open spec fn eq_spec(&self, other: &CinMeta) -> bool {
        self@ == other@
    }
}

} // verus!
