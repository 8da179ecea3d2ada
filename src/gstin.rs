//! The Goods and Services Tax Identification Number: fifteen characters, the
//! state's numeric code, a whole PAN, an entity character, the letter `Z` and
//! a check character.

use vstd::prelude::*;
use vstd::string::*;
use crate::ValidationError;
use crate::pan::{lemma_pan_round_trip, pan_text, parse_pan, read_pan, PanError, PanMeta, PanView};
use crate::utils::{is_digit, is_digit_char, is_upper, is_upper_char, lemma_jurisdiction_bijection, push_char, State};

verus! {

/// Why a GSTIN was refused.
#[derive(Debug, Clone, Copy, PartialEq, Eq, Structural)]
pub enum GstinError {
    /// Two digits stand where the state is due, but they name no state.
    InvalidJurisdiction,
    /// The ten characters of the embedded PAN are refused, for the reason given.
    InvalidPan(PanError),
    /// The length is not fifteen, or a character is not of the kind due.
    Malformed,
}

/// The fields of a GSTIN.
#[derive(Debug, Clone)]
pub struct GstinMeta {
    pub state: State,
    pub pan: PanMeta,
    pub entity_digit: char,
    pub check_code: char,
}

/// The fields of a GSTIN as mathematical values.
pub struct GstinView {
    pub state: State,
    pub pan: PanView,
    pub entity_digit: char,
    pub check_code: char,
}

impl View for GstinMeta {
    type V = GstinView;

    open spec fn view(&self) -> GstinView {
        GstinView {
            state: self.state,
            pan: self.pan@,
            entity_digit: self.entity_digit,
            check_code: self.check_code,
        }
    }
}

/// A digit from one to nine, or an uppercase letter.
pub open spec fn is_entity(c: char) -> bool {
    ('1' <= c && c <= '9') || is_upper(c)
}

/// The text of a GSTIN with the fields `v`.
pub open spec fn gstin_text(v: GstinView) -> Seq<char> {
    v.state.numeric() + pan_text(v.pan) + seq![v.entity_digit, 'Z', v.check_code]
}

/// What reading `s` as a GSTIN gives: the fields, or the first rule that fails.
pub open spec fn parse_gstin(s: Seq<char>) -> Result<GstinView, GstinError> {
    if s.len() != 15 {
        Err(GstinError::Malformed)
    } else if !is_digit(s[0]) || !is_digit(s[1]) {
        Err(GstinError::Malformed)
    } else if State::of_numeric(s[0], s[1]) is None {
        Err(GstinError::InvalidJurisdiction)
    } else if parse_pan(s.subrange(2, 12)) is Err {
        Err(GstinError::InvalidPan(parse_pan(s.subrange(2, 12))->Err_0))
    } else if !is_entity(s[12]) || s[13] != 'Z' || !(is_upper(s[14]) || is_digit(s[14])) {
        Err(GstinError::Malformed)
    } else {
        Ok(
            GstinView {
                state: State::of_numeric(s[0], s[1])->Some_0,
                pan: parse_pan(s.subrange(2, 12))->Ok_0,
                entity_digit: s[12],
                check_code: s[14],
            },
        )
    }
}

impl GstinMeta {
    /// Reads a GSTIN; a failure is reported as `ValidationError::Gstin`.
    pub fn from_gstin(gstin: &str) -> (r: Result<GstinMeta, ValidationError>)
        ensures
            match parse_gstin(gstin@) {
                Ok(v) => r matches Ok(m) && m@ == v,
                Err(e) => r == Err::<GstinMeta, ValidationError>(ValidationError::Gstin(e)),
            },
            gstin@.len() != 15 ==> r == Err::<GstinMeta, ValidationError>(
                ValidationError::Gstin(GstinError::Malformed),
            ),
    {
        let s = gstin;
        if s.unicode_len() != 15 {
            return Err(ValidationError::Gstin(GstinError::Malformed));
        }
        let a = s.get_char(0);
        let b = s.get_char(1);
        if !is_digit_char(a) || !is_digit_char(b) {
            return Err(ValidationError::Gstin(GstinError::Malformed));
        }
        let state = match State::from_numeric(a, b) {
            Some(st) => st,
            None => {
                return Err(ValidationError::Gstin(GstinError::InvalidJurisdiction));
            },
        };
        let pan = match read_pan(s.substring_char(2, 12)) {
            Ok(p) => p,
            Err(e) => {
                return Err(ValidationError::Gstin(GstinError::InvalidPan(e)));
            },
        };
        let entity_digit = s.get_char(12);
        let z = s.get_char(13);
        let check_code = s.get_char(14);
        if !(('1' <= entity_digit && entity_digit <= '9') || is_upper_char(entity_digit)) || z
            != 'Z' || !(is_upper_char(check_code) || is_digit_char(check_code)) {
            return Err(ValidationError::Gstin(GstinError::Malformed));
        }
        Ok(GstinMeta { state, pan, entity_digit, check_code })
    }

    /// The fifteen-character text of the GSTIN.
    pub fn gstin(&self) -> (r: String)
        ensures
            r@ == gstin_text(self@),
    {
        let mut r = String::from_str(self.state.numeric_code());
        let p = self.pan.pan();
        r.append(p.as_str());
        push_char(&mut r, self.entity_digit);
        push_char(&mut r, 'Z');
        push_char(&mut r, self.check_code);
        proof {
            assert(r@ =~= gstin_text(self@));
        }
        r
    }
}

/// Reading a valid GSTIN and writing it out again gives back the same text.
pub proof fn lemma_gstin_round_trip(s: Seq<char>)
    requires
        parse_gstin(s) is Ok,
    ensures
        gstin_text(parse_gstin(s)->Ok_0) == s,
{
    let v = parse_gstin(s)->Ok_0;
    lemma_jurisdiction_bijection(v.state, s[0], s[1]);
    lemma_pan_round_trip(s.subrange(2, 12));
    assert(gstin_text(v) =~= s);
}

/// Writing out the fields that a read produced and reading the text again
/// gives the same fields.
pub proof fn lemma_gstin_reparse(s: Seq<char>)
    requires
        parse_gstin(s) is Ok,
    ensures
        parse_gstin(gstin_text(parse_gstin(s)->Ok_0)) == parse_gstin(s),
{
    lemma_gstin_round_trip(s);
}

/// A GSTIN of any length but fifteen is refused.
pub proof fn lemma_gstin_length(s: Seq<char>)
    requires
        s.len() != 15,
    ensures
        parse_gstin(s) == Err::<GstinView, GstinError>(GstinError::Malformed),
{
}

/// Putting two digits that name no state where a valid GSTIN has its state
/// gives a GSTIN that is refused for its state.
pub proof fn lemma_gstin_unknown_state(s: Seq<char>, a: char, b: char)
    requires
        parse_gstin(s) is Ok,
        is_digit(a),
        is_digit(b),
        State::of_numeric(a, b) is None,
    ensures
        parse_gstin(s.update(0, a).update(1, b)) == Err::<GstinView, GstinError>(
            GstinError::InvalidJurisdiction,
        ),
{
}

/// Two records are equal when their fields are.
impl PartialEq for GstinMeta {
    fn eq(&self, other: &GstinMeta) -> (r: bool) {
        self.state == other.state && self.pan == other.pan && self.entity_digit
            == other.entity_digit && self.check_code == other.check_code
    }
}

impl vstd::std_specs::cmp::PartialEqSpecImpl for GstinMeta {
    open spec fn obeys_eq_spec() -> bool {
        true
    }

    open spec fn eq_spec(&self, other: &GstinMeta) -> bool {
        self@ == other@
    }
}

} // verus!
