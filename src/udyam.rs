//! The Udyam registration number: `UDYAM-`, the state mnemonic, `-`, a
//! two-digit city code, `-` and a seven-digit code, nineteen characters in all.

use vstd::prelude::*;
use vstd::string::*;
use crate::ValidationError;
use crate::utils::{all_digits, all_upper, digit_span, is_upper, lemma_jurisdiction_bijection, span, upper_span, State};

verus! {

/// Why an Udyam number was refused.
#[derive(Debug, Clone, Copy, PartialEq, Eq, Structural)]
pub enum UdyamError {
    /// Two letters stand where the state is due, but they name no state.
    InvalidJurisdiction,
    /// The length is not nineteen, a literal part differs, or a digit or
    /// letter is missing where one is due.
    Malformed,
}

/// The fields of an Udyam registration number.
#[derive(Debug, Clone)]
pub struct UdyamMeta {
    pub state: State,
    pub city: String,
    pub udyam_code: String,
}

/// The fields of an Udyam number as mathematical values.
pub struct UdyamView {
    pub state: State,
    pub city: Seq<char>,
    pub udyam_code: Seq<char>,
}

impl View for UdyamMeta {
    type V = UdyamView;

    open spec fn view(&self) -> UdyamView {
        UdyamView { state: self.state, city: self.city@, udyam_code: self.udyam_code@ }
    }
}

/// The literal that every Udyam number starts with.
pub open spec fn udyam_prefix() -> Seq<char> {
    seq!['U', 'D', 'Y', 'A', 'M', '-']
}

/// The text of an Udyam number with the fields `v`.
pub open spec fn udyam_text(v: UdyamView) -> Seq<char> {
    udyam_prefix() + v.state.alpha() + seq!['-'] + v.city + seq!['-'] + v.udyam_code
}

/// What reading `s` as an Udyam number gives: the fields, or the first rule
/// that fails.
pub open spec fn parse_udyam(s: Seq<char>) -> Result<UdyamView, UdyamError> {
    if s.len() != 19 {
        Err(UdyamError::Malformed)
    } else if s.subrange(0, 6) != udyam_prefix() {
        Err(UdyamError::Malformed)
    } else if !all_upper(s.subrange(6, 8)) {
        Err(UdyamError::Malformed)
    } else if State::of_alpha(s[6], s[7]) is None {
        Err(UdyamError::InvalidJurisdiction)
    } else if s[8] != '-' || !all_digits(s.subrange(9, 11)) || s[11] != '-' || !all_digits(
        s.subrange(12, 19),
    ) {
        Err(UdyamError::Malformed)
    } else {
        Ok(
            UdyamView {
                state: State::of_alpha(s[6], s[7])->Some_0,
                city: s.subrange(9, 11),
                udyam_code: s.subrange(12, 19),
            },
        )
    }
}

/// Tells whether `s`, of at least six characters, starts with `UDYAM-`.
fn has_prefix(s: &str) -> (r: bool)
    requires
        s@.len() >= 6,
    ensures
        r == (s@.subrange(0, 6) == udyam_prefix()),
{
    let r = s.get_char(0) == 'U' && s.get_char(1) == 'D' && s.get_char(2) == 'Y' && s.get_char(3)
        == 'A' && s.get_char(4) == 'M' && s.get_char(5) == '-';
    proof {
        if r {
            assert(s@.subrange(0, 6) =~= udyam_prefix());
        } else {
            assert(s@.subrange(0, 6) != udyam_prefix()) by {
                if s@.subrange(0, 6) == udyam_prefix() {
                    assert(s@.subrange(0, 6)[0] == s@[0]);
                    assert(s@.subrange(0, 6)[1] == s@[1]);
                    assert(s@.subrange(0, 6)[2] == s@[2]);
                    assert(s@.subrange(0, 6)[3] == s@[3]);
                    assert(s@.subrange(0, 6)[4] == s@[4]);
                    assert(s@.subrange(0, 6)[5] == s@[5]);
                }
            }
        }
    }
    r
}

impl UdyamMeta {
    /// Reads an Udyam number; a failure is reported as `ValidationError::Udyam`.
    pub fn from_udyam(udyam: &str) -> (r: Result<UdyamMeta, ValidationError>)
        ensures
            match parse_udyam(udyam@) {
                Ok(v) => r matches Ok(m) && m@ == v,
                Err(e) => r == Err::<UdyamMeta, ValidationError>(ValidationError::Udyam(e)),
            },
            udyam@.len() != 19 ==> r == Err::<UdyamMeta, ValidationError>(
                ValidationError::Udyam(UdyamError::Malformed),
            ),
    {
        let s = udyam;
        if s.unicode_len() != 19 {
            return Err(ValidationError::Udyam(UdyamError::Malformed));
        }
        if !has_prefix(s) {
            return Err(ValidationError::Udyam(UdyamError::Malformed));
        }
        if !upper_span(s, 6, 8) {
            return Err(ValidationError::Udyam(UdyamError::Malformed));
        }
        let state = match State::from_alpha(s.get_char(6), s.get_char(7)) {
            Some(st) => st,
            None => {
                return Err(ValidationError::Udyam(UdyamError::InvalidJurisdiction));
            },
        };
        if s.get_char(8) != '-' || !digit_span(s, 9, 11) || s.get_char(11) != '-' || !digit_span(
            s,
            12,
            19,
        ) {
            return Err(ValidationError::Udyam(UdyamError::Malformed));
        }
        Ok(UdyamMeta { state, city: span(s, 9, 11), udyam_code: span(s, 12, 19) })
    }

    /// The nineteen-character text of the Udyam number.
    pub fn udyam(&self) -> (r: String)
        ensures
            r@ == udyam_text(self@),
    {
        let mut r = String::from_str("UDYAM-");
        proof {
            reveal_strlit("UDYAM-");
            reveal_strlit("-");
        }
        r.append(self.state.code());
        r.append("-");
        r.append(self.city.as_str());
        r.append("-");
        r.append(self.udyam_code.as_str());
        proof {
            assert(r@ =~= udyam_text(self@));
        }
        r
    }
}

/// Reading a valid Udyam number and writing it out again gives back the same
/// text.
pub proof fn lemma_udyam_round_trip(s: Seq<char>)
    requires
        parse_udyam(s) is Ok,
    ensures
        udyam_text(parse_udyam(s)->Ok_0) == s,
{
    let v = parse_udyam(s)->Ok_0;
    lemma_jurisdiction_bijection(v.state, s[6], s[7]);
    assert(udyam_text(v) =~= s);
}

/// Writing out the fields that a read produced and reading the text again
/// gives the same fields.
pub proof fn lemma_udyam_reparse(s: Seq<char>)
    requires
        parse_udyam(s) is Ok,
    ensures
        parse_udyam(udyam_text(parse_udyam(s)->Ok_0)) == parse_udyam(s),
{
    lemma_udyam_round_trip(s);
}

/// An Udyam number of any length but nineteen is refused.
pub proof fn lemma_udyam_length(s: Seq<char>)
    requires
        s.len() != 19,
    ensures
        parse_udyam(s) == Err::<UdyamView, UdyamError>(UdyamError::Malformed),
{
}

/// Putting two letters that name no state where a valid Udyam number has its
/// state gives a number that is refused for its state.
pub proof fn lemma_udyam_unknown_state(s: Seq<char>, a: char, b: char)
    requires
        parse_udyam(s) is Ok,
        is_upper(a),
        is_upper(b),
        State::of_alpha(a, b) is None,
    ensures
        parse_udyam(s.update(6, a).update(7, b)) == Err::<UdyamView, UdyamError>(
            UdyamError::InvalidJurisdiction,
        ),
{
    let t = s.update(6, a).update(7, b);
    assert(t.subrange(0, 6) =~= s.subrange(0, 6));
    assert(t.subrange(6, 8) =~= seq![a, b]);
}

/// Two records are equal when their fields are.
impl PartialEq for UdyamMeta {
    fn eq(&self, other: &UdyamMeta) -> (r: bool) {
        self.state == other.state && self.city == other.city && self.udyam_code
            == other.udyam_code
    }
}

impl vstd::std_specs::cmp::PartialEqSpecImpl for UdyamMeta {
    open spec fn obeys_eq_spec() -> bool {
        true
    }

    open spec fn eq_spec(&self, other: &UdyamMeta) -> bool {
        self@ == other@
    }
}

} // verus!
