//! The jurisdiction table shared by all identifier kinds: each state or union
//! territory has a two-letter mnemonic and a two-digit numeric code.

use vstd::prelude::*;
use vstd::string::*;

verus! {

/// True for an ASCII uppercase letter.
pub open spec fn is_upper(c: char) -> bool {
    'A' <= c && c <= 'Z'
}

/// True for an ASCII decimal digit.
pub open spec fn is_digit(c: char) -> bool {
    '0' <= c && c <= '9'
}

/// Every character of `s` is an ASCII uppercase letter.
pub open spec fn all_upper(s: Seq<char>) -> bool {
    forall|i: int| 0 <= i < s.len() ==> is_upper(#[trigger] s[i])
}

/// Every character of `s` is an ASCII decimal digit.
pub open spec fn all_digits(s: Seq<char>) -> bool {
    forall|i: int| 0 <= i < s.len() ==> is_digit(#[trigger] s[i])
}

pub fn is_upper_char(c: char) -> (r: bool)
    ensures
        r == is_upper(c),
{
    'A' <= c && c <= 'Z'
}

pub fn is_digit_char(c: char) -> (r: bool)
    ensures
        r == is_digit(c),
{
    '0' <= c && c <= '9'
}

/// A state or union territory, or one of the two synthetic jurisdictions.
#[derive(Debug, Clone, Copy, PartialEq, Eq, Structural)]
pub enum State {
    AndhraPradesh,
    ArunachalPradesh,
    Assam,
    Bihar,
    Chhattisgarh,
    Goa,
    Gujarat,
    Haryana,
    HimachalPradesh,
    JammuAndKashmir,
    Jharkhand,
    Karnataka,
    Kerala,
    MadhyaPradesh,
    Maharashtra,
    Manipur,
    Meghalaya,
    Mizoram,
    Nagaland,
    Odisha,
    Punjab,
    Rajasthan,
    Sikkim,
    TamilNadu,
    Tripura,
    Uttarakhand,
    UttarPradesh,
    WestBengal,
    AndamanAndNicobarIslands,
    Chandigarh,
    DadraAndNagarHaveli,
    DamanAndDiu,
    Delhi,
    Lakshadweep,
    Puducherry,
    Telangana,
    Ladakh,
    OtherTerritory,
    CentralJurisdiction,
}

/// The failure of a jurisdiction lookup: the code matched no jurisdiction.
#[derive(Debug, Clone, PartialEq, Eq)]
pub enum LookupError {
    Unknown(String),
}

impl State {
    /// The two-letter mnemonic.
    pub open spec fn alpha(self) -> Seq<char> {
        match self {
            State::AndhraPradesh => seq!['A', 'P'],
            State::ArunachalPradesh => seq!['A', 'R'],
            State::Assam => seq!['A', 'S'],
            State::Bihar => seq!['B', 'R'],
            State::Chhattisgarh => seq!['C', 'G'],
            State::Goa => seq!['G', 'A'],
            State::Gujarat => seq!['G', 'J'],
            State::Haryana => seq!['H', 'R'],
            State::HimachalPradesh => seq!['H', 'P'],
            State::JammuAndKashmir => seq!['J', 'K'],
            State::Jharkhand => seq!['J', 'H'],
            State::Karnataka => seq!['K', 'A'],
            State::Kerala => seq!['K', 'L'],
            State::MadhyaPradesh => seq!['M', 'P'],
            State::Maharashtra => seq!['M', 'H'],
            State::Manipur => seq!['M', 'N'],
            State::Meghalaya => seq!['M', 'L'],
            State::Mizoram => seq!['M', 'Z'],
            State::Nagaland => seq!['N', 'L'],
            State::Odisha => seq!['O', 'R'],
            State::Punjab => seq!['P', 'B'],
            State::Rajasthan => seq!['R', 'J'],
            State::Sikkim => seq!['S', 'K'],
            State::TamilNadu => seq!['T', 'N'],
            State::Tripura => seq!['T', 'R'],
            State::Uttarakhand => seq!['U', 'K'],
            State::UttarPradesh => seq!['U', 'P'],
            State::WestBengal => seq!['W', 'B'],
            State::AndamanAndNicobarIslands => seq!['A', 'N'],
            State::Chandigarh => seq!['C', 'H'],
            State::DadraAndNagarHaveli => seq!['D', 'H'],
            State::DamanAndDiu => seq!['D', 'D'],
            State::Delhi => seq!['D', 'L'],
            State::Lakshadweep => seq!['L', 'D'],
            State::Puducherry => seq!['P', 'Y'],
            State::Telangana => seq!['T', 'S'],
            State::Ladakh => seq!['L', 'A'],
            State::OtherTerritory => seq!['O', 'T'],
            State::CentralJurisdiction => seq!['C', 'J'],
        }
    }

    /// The two-digit numeric code.
    pub open spec fn numeric(self) -> Seq<char> {
        match self {
            State::AndhraPradesh => seq!['2', '8'],
            State::ArunachalPradesh => seq!['1', '2'],
            State::Assam => seq!['1', '8'],
            State::Bihar => seq!['1', '0'],
            State::Chhattisgarh => seq!['2', '2'],
            State::Goa => seq!['3', '0'],
            State::Gujarat => seq!['2', '4'],
            State::Haryana => seq!['0', '6'],
            State::HimachalPradesh => seq!['0', '2'],
            State::JammuAndKashmir => seq!['0', '1'],
            State::Jharkhand => seq!['2', '0'],
            State::Karnataka => seq!['2', '9'],
            State::Kerala => seq!['3', '2'],
            State::MadhyaPradesh => seq!['2', '3'],
            State::Maharashtra => seq!['2', '7'],
            State::Manipur => seq!['1', '4'],
            State::Meghalaya => seq!['1', '7'],
            State::Mizoram => seq!['1', '5'],
            State::Nagaland => seq!['1', '3'],
            State::Odisha => seq!['2', '1'],
            State::Punjab => seq!['0', '3'],
            State::Rajasthan => seq!['0', '8'],
            State::Sikkim => seq!['1', '1'],
            State::TamilNadu => seq!['3', '3'],
            State::Tripura => seq!['1', '6'],
            State::Uttarakhand => seq!['0', '5'],
            State::UttarPradesh => seq!['0', '9'],
            State::WestBengal => seq!['1', '9'],
            State::AndamanAndNicobarIslands => seq!['3', '5'],
            State::Chandigarh => seq!['0', '4'],
            State::DadraAndNagarHaveli => seq!['2', '6'],
            State::DamanAndDiu => seq!['2', '5'],
            State::Delhi => seq!['0', '7'],
            State::Lakshadweep => seq!['3', '1'],
            State::Puducherry => seq!['3', '4'],
            State::Telangana => seq!['3', '6'],
            State::Ladakh => seq!['3', '8'],
            State::OtherTerritory => seq!['9', '7'],
            State::CentralJurisdiction => seq!['9', '9'],
        }
    }

    /// The jurisdiction whose mnemonic is `a` followed by `b`, if any.
    pub open spec fn of_alpha(a: char, b: char) -> Option<State> {
        match (a, b) {
            ('A', 'P') => Some(State::AndhraPradesh),
            ('A', 'R') => Some(State::ArunachalPradesh),
            ('A', 'S') => Some(State::Assam),
            ('B', 'R') => Some(State::Bihar),
            ('C', 'G') => Some(State::Chhattisgarh),
            ('G', 'A') => Some(State::Goa),
            ('G', 'J') => Some(State::Gujarat),
            ('H', 'R') => Some(State::Haryana),
            ('H', 'P') => Some(State::HimachalPradesh),
            ('J', 'K') => Some(State::JammuAndKashmir),
            ('J', 'H') => Some(State::Jharkhand),
            ('K', 'A') => Some(State::Karnataka),
            ('K', 'L') => Some(State::Kerala),
            ('M', 'P') => Some(State::MadhyaPradesh),
            ('M', 'H') => Some(State::Maharashtra),
            ('M', 'N') => Some(State::Manipur),
            ('M', 'L') => Some(State::Meghalaya),
            ('M', 'Z') => Some(State::Mizoram),
            ('N', 'L') => Some(State::Nagaland),
            ('O', 'R') => Some(State::Odisha),
            ('P', 'B') => Some(State::Punjab),
            ('R', 'J') => Some(State::Rajasthan),
            ('S', 'K') => Some(State::Sikkim),
            ('T', 'N') => Some(State::TamilNadu),
            ('T', 'R') => Some(State::Tripura),
            ('U', 'K') => Some(State::Uttarakhand),
            ('U', 'P') => Some(State::UttarPradesh),
            ('W', 'B') => Some(State::WestBengal),
            ('A', 'N') => Some(State::AndamanAndNicobarIslands),
            ('C', 'H') => Some(State::Chandigarh),
            ('D', 'H') => Some(State::DadraAndNagarHaveli),
            ('D', 'D') => Some(State::DamanAndDiu),
            ('D', 'L') => Some(State::Delhi),
            ('L', 'D') => Some(State::Lakshadweep),
            ('P', 'Y') => Some(State::Puducherry),
            ('T', 'S') => Some(State::Telangana),
            ('L', 'A') => Some(State::Ladakh),
            ('O', 'T') => Some(State::OtherTerritory),
            ('C', 'J') => Some(State::CentralJurisdiction),
            _ => None,
        }
    }

    /// The jurisdiction whose numeric code is `a` followed by `b`, if any.
    pub open spec fn of_numeric(a: char, b: char) -> Option<State> {
        match (a, b) {
            ('2', '8') => Some(State::AndhraPradesh),
            ('1', '2') => Some(State::ArunachalPradesh),
            ('1', '8') => Some(State::Assam),
            ('1', '0') => Some(State::Bihar),
            ('2', '2') => Some(State::Chhattisgarh),
            ('3', '0') => Some(State::Goa),
            ('2', '4') => Some(State::Gujarat),
            ('0', '6') => Some(State::Haryana),
            ('0', '2') => Some(State::HimachalPradesh),
            ('0', '1') => Some(State::JammuAndKashmir),
            ('2', '0') => Some(State::Jharkhand),
            ('2', '9') => Some(State::Karnataka),
            ('3', '2') => Some(State::Kerala),
            ('2', '3') => Some(State::MadhyaPradesh),
            ('2', '7') => Some(State::Maharashtra),
            ('1', '4') => Some(State::Manipur),
            ('1', '7') => Some(State::Meghalaya),
            ('1', '5') => Some(State::Mizoram),
            ('1', '3') => Some(State::Nagaland),
            ('2', '1') => Some(State::Odisha),
            ('0', '3') => Some(State::Punjab),
            ('0', '8') => Some(State::Rajasthan),
            ('1', '1') => Some(State::Sikkim),
            ('3', '3') => Some(State::TamilNadu),
            ('1', '6') => Some(State::Tripura),
            ('0', '5') => Some(State::Uttarakhand),
            ('0', '9') => Some(State::UttarPradesh),
            ('1', '9') => Some(State::WestBengal),
            ('3', '5') => Some(State::AndamanAndNicobarIslands),
            ('0', '4') => Some(State::Chandigarh),
            ('2', '6') => Some(State::DadraAndNagarHaveli),
            ('2', '5') => Some(State::DamanAndDiu),
            ('0', '7') => Some(State::Delhi),
            ('3', '1') => Some(State::Lakshadweep),
            ('3', '4') => Some(State::Puducherry),
            ('3', '6') => Some(State::Telangana),
            ('3', '8') => Some(State::Ladakh),
            ('9', '7') => Some(State::OtherTerritory),
            ('9', '9') => Some(State::CentralJurisdiction),
            _ => None,
        }
    }

    /// The jurisdiction that `code` names in either form, if any.
    pub open spec fn of_code(code: Seq<char>) -> Option<State> {
        if code.len() != 2 {
            None
        } else if State::of_alpha(code[0], code[1]) is Some {
            State::of_alpha(code[0], code[1])
        } else {
            State::of_numeric(code[0], code[1])
        }
    }

    /// The two-letter mnemonic.
    pub fn code(&self) -> (r: &str)
        ensures
            r@ == self.alpha(),
    {
        match self {
            State::AndhraPradesh => {
                proof { reveal_strlit("AP"); }
                "AP"
            },
            State::ArunachalPradesh => {
                proof { reveal_strlit("AR"); }
                "AR"
            },
            State::Assam => {
                proof { reveal_strlit("AS"); }
                "AS"
            },
            State::Bihar => {
                proof { reveal_strlit("BR"); }
                "BR"
            },
            State::Chhattisgarh => {
                proof { reveal_strlit("CG"); }
                "CG"
            },
            State::Goa => {
                proof { reveal_strlit("GA"); }
                "GA"
            },
            State::Gujarat => {
                proof { reveal_strlit("GJ"); }
                "GJ"
            },
            State::Haryana => {
                proof { reveal_strlit("HR"); }
                "HR"
            },
            State::HimachalPradesh => {
                proof { reveal_strlit("HP"); }
                "HP"
            },
            State::JammuAndKashmir => {
                proof { reveal_strlit("JK"); }
                "JK"
            },
            State::Jharkhand => {
                proof { reveal_strlit("JH"); }
                "JH"
            },
            State::Karnataka => {
                proof { reveal_strlit("KA"); }
                "KA"
            },
            State::Kerala => {
                proof { reveal_strlit("KL"); }
                "KL"
            },
            State::MadhyaPradesh => {
                proof { reveal_strlit("MP"); }
                "MP"
            },
            State::Maharashtra => {
                proof { reveal_strlit("MH"); }
                "MH"
            },
            State::Manipur => {
                proof { reveal_strlit("MN"); }
                "MN"
            },
            State::Meghalaya => {
                proof { reveal_strlit("ML"); }
                "ML"
            },
            State::Mizoram => {
                proof { reveal_strlit("MZ"); }
                "MZ"
            },
            State::Nagaland => {
                proof { reveal_strlit("NL"); }
                "NL"
            },
            State::Odisha => {
                proof { reveal_strlit("OR"); }
                "OR"
            },
            State::Punjab => {
                proof { reveal_strlit("PB"); }
                "PB"
            },
            State::Rajasthan => {
                proof { reveal_strlit("RJ"); }
                "RJ"
            },
            State::Sikkim => {
                proof { reveal_strlit("SK"); }
                "SK"
            },
            State::TamilNadu => {
                proof { reveal_strlit("TN"); }
                "TN"
            },
            State::Tripura => {
                proof { reveal_strlit("TR"); }
                "TR"
            },
            State::Uttarakhand => {
                proof { reveal_strlit("UK"); }
                "UK"
            },
            State::UttarPradesh => {
                proof { reveal_strlit("UP"); }
                "UP"
            },
            State::WestBengal => {
                proof { reveal_strlit("WB"); }
                "WB"
            },
            State::AndamanAndNicobarIslands => {
                proof { reveal_strlit("AN"); }
                "AN"
            },
            State::Chandigarh => {
                proof { reveal_strlit("CH"); }
                "CH"
            },
            State::DadraAndNagarHaveli => {
                proof { reveal_strlit("DH"); }
                "DH"
            },
            State::DamanAndDiu => {
                proof { reveal_strlit("DD"); }
                "DD"
            },
            State::Delhi => {
                proof { reveal_strlit("DL"); }
                "DL"
            },
            State::Lakshadweep => {
                proof { reveal_strlit("LD"); }
                "LD"
            },
            State::Puducherry => {
                proof { reveal_strlit("PY"); }
                "PY"
            },
            State::Telangana => {
                proof { reveal_strlit("TS"); }
                "TS"
            },
            State::Ladakh => {
                proof { reveal_strlit("LA"); }
                "LA"
            },
            State::OtherTerritory => {
                proof { reveal_strlit("OT"); }
                "OT"
            },
            State::CentralJurisdiction => {
                proof { reveal_strlit("CJ"); }
                "CJ"
            },
        }
    }

    /// The two-digit numeric code, leading zero included.
    pub fn numeric_code(&self) -> (r: &str)
        ensures
            r@ == self.numeric(),
    {
        match self {
            State::AndhraPradesh => {
                proof { reveal_strlit("28"); }
                "28"
            },
            State::ArunachalPradesh => {
                proof { reveal_strlit("12"); }
                "12"
            },
            State::Assam => {
                proof { reveal_strlit("18"); }
                "18"
            },
            State::Bihar => {
                proof { reveal_strlit("10"); }
                "10"
            },
            State::Chhattisgarh => {
                proof { reveal_strlit("22"); }
                "22"
            },
            State::Goa => {
                proof { reveal_strlit("30"); }
                "30"
            },
            State::Gujarat => {
                proof { reveal_strlit("24"); }
                "24"
            },
            State::Haryana => {
                proof { reveal_strlit("06"); }
                "06"
            },
            State::HimachalPradesh => {
                proof { reveal_strlit("02"); }
                "02"
            },
            State::JammuAndKashmir => {
                proof { reveal_strlit("01"); }
                "01"
            },
            State::Jharkhand => {
                proof { reveal_strlit("20"); }
                "20"
            },
            State::Karnataka => {
                proof { reveal_strlit("29"); }
                "29"
            },
            State::Kerala => {
                proof { reveal_strlit("32"); }
                "32"
            },
            State::MadhyaPradesh => {
                proof { reveal_strlit("23"); }
                "23"
            },
            State::Maharashtra => {
                proof { reveal_strlit("27"); }
                "27"
            },
            State::Manipur => {
                proof { reveal_strlit("14"); }
                "14"
            },
            State::Meghalaya => {
                proof { reveal_strlit("17"); }
                "17"
            },
            State::Mizoram => {
                proof { reveal_strlit("15"); }
                "15"
            },
            State::Nagaland => {
                proof { reveal_strlit("13"); }
                "13"
            },
            State::Odisha => {
                proof { reveal_strlit("21"); }
                "21"
            },
            State::Punjab => {
                proof { reveal_strlit("03"); }
                "03"
            },
            State::Rajasthan => {
                proof { reveal_strlit("08"); }
                "08"
            },
            State::Sikkim => {
                proof { reveal_strlit("11"); }
                "11"
            },
            State::TamilNadu => {
                proof { reveal_strlit("33"); }
                "33"
            },
            State::Tripura => {
                proof { reveal_strlit("16"); }
                "16"
            },
            State::Uttarakhand => {
                proof { reveal_strlit("05"); }
                "05"
            },
            State::UttarPradesh => {
                proof { reveal_strlit("09"); }
                "09"
            },
            State::WestBengal => {
                proof { reveal_strlit("19"); }
                "19"
            },
            State::AndamanAndNicobarIslands => {
                proof { reveal_strlit("35"); }
                "35"
            },
            State::Chandigarh => {
                proof { reveal_strlit("04"); }
                "04"
            },
            State::DadraAndNagarHaveli => {
                proof { reveal_strlit("26"); }
                "26"
            },
            State::DamanAndDiu => {
                proof { reveal_strlit("25"); }
                "25"
            },
            State::Delhi => {
                proof { reveal_strlit("07"); }
                "07"
            },
            State::Lakshadweep => {
                proof { reveal_strlit("31"); }
                "31"
            },
            State::Puducherry => {
                proof { reveal_strlit("34"); }
                "34"
            },
            State::Telangana => {
                proof { reveal_strlit("36"); }
                "36"
            },
            State::Ladakh => {
                proof { reveal_strlit("38"); }
                "38"
            },
            State::OtherTerritory => {
                proof { reveal_strlit("97"); }
                "97"
            },
            State::CentralJurisdiction => {
                proof { reveal_strlit("99"); }
                "99"
            },
        }
    }

    /// Looks up a jurisdiction by its two-letter mnemonic.
    pub fn from_alpha(a: char, b: char) -> (r: Option<State>)
        ensures
            r == State::of_alpha(a, b),
    {
        match (a, b) {
            ('A', 'P') => Some(State::AndhraPradesh),
            ('A', 'R') => Some(State::ArunachalPradesh),
            ('A', 'S') => Some(State::Assam),
            ('B', 'R') => Some(State::Bihar),
            ('C', 'G') => Some(State::Chhattisgarh),
            ('G', 'A') => Some(State::Goa),
            ('G', 'J') => Some(State::Gujarat),
            ('H', 'R') => Some(State::Haryana),
            ('H', 'P') => Some(State::HimachalPradesh),
            ('J', 'K') => Some(State::JammuAndKashmir),
            ('J', 'H') => Some(State::Jharkhand),
            ('K', 'A') => Some(State::Karnataka),
            ('K', 'L') => Some(State::Kerala),
            ('M', 'P') => Some(State::MadhyaPradesh),
            ('M', 'H') => Some(State::Maharashtra),
            ('M', 'N') => Some(State::Manipur),
            ('M', 'L') => Some(State::Meghalaya),
            ('M', 'Z') => Some(State::Mizoram),
            ('N', 'L') => Some(State::Nagaland),
            ('O', 'R') => Some(State::Odisha),
            ('P', 'B') => Some(State::Punjab),
            ('R', 'J') => Some(State::Rajasthan),
            ('S', 'K') => Some(State::Sikkim),
            ('T', 'N') => Some(State::TamilNadu),
            ('T', 'R') => Some(State::Tripura),
            ('U', 'K') => Some(State::Uttarakhand),
            ('U', 'P') => Some(State::UttarPradesh),
            ('W', 'B') => Some(State::WestBengal),
            ('A', 'N') => Some(State::AndamanAndNicobarIslands),
            ('C', 'H') => Some(State::Chandigarh),
            ('D', 'H') => Some(State::DadraAndNagarHaveli),
            ('D', 'D') => Some(State::DamanAndDiu),
            ('D', 'L') => Some(State::Delhi),
            ('L', 'D') => Some(State::Lakshadweep),
            ('P', 'Y') => Some(State::Puducherry),
            ('T', 'S') => Some(State::Telangana),
            ('L', 'A') => Some(State::Ladakh),
            ('O', 'T') => Some(State::OtherTerritory),
            ('C', 'J') => Some(State::CentralJurisdiction),
            _ => None,
        }
    }

    /// Looks up a jurisdiction by its two-digit numeric code.
    pub fn from_numeric(a: char, b: char) -> (r: Option<State>)
        ensures
            r == State::of_numeric(a, b),
    {
        match (a, b) {
            ('2', '8') => Some(State::AndhraPradesh),
            ('1', '2') => Some(State::ArunachalPradesh),
            ('1', '8') => Some(State::Assam),
            ('1', '0') => Some(State::Bihar),
            ('2', '2') => Some(State::Chhattisgarh),
            ('3', '0') => Some(State::Goa),
            ('2', '4') => Some(State::Gujarat),
            ('0', '6') => Some(State::Haryana),
            ('0', '2') => Some(State::HimachalPradesh),
            ('0', '1') => Some(State::JammuAndKashmir),
            ('2', '0') => Some(State::Jharkhand),
            ('2', '9') => Some(State::Karnataka),
            ('3', '2') => Some(State::Kerala),
            ('2', '3') => Some(State::MadhyaPradesh),
            ('2', '7') => Some(State::Maharashtra),
            ('1', '4') => Some(State::Manipur),
            ('1', '7') => Some(State::Meghalaya),
            ('1', '5') => Some(State::Mizoram),
            ('1', '3') => Some(State::Nagaland),
            ('2', '1') => Some(State::Odisha),
            ('0', '3') => Some(State::Punjab),
            ('0', '8') => Some(State::Rajasthan),
            ('1', '1') => Some(State::Sikkim),
            ('3', '3') => Some(State::TamilNadu),
            ('1', '6') => Some(State::Tripura),
            ('0', '5') => Some(State::Uttarakhand),
            ('0', '9') => Some(State::UttarPradesh),
            ('1', '9') => Some(State::WestBengal),
            ('3', '5') => Some(State::AndamanAndNicobarIslands),
            ('0', '4') => Some(State::Chandigarh),
            ('2', '6') => Some(State::DadraAndNagarHaveli),
            ('2', '5') => Some(State::DamanAndDiu),
            ('0', '7') => Some(State::Delhi),
            ('3', '1') => Some(State::Lakshadweep),
            ('3', '4') => Some(State::Puducherry),
            ('3', '6') => Some(State::Telangana),
            ('3', '8') => Some(State::Ladakh),
            ('9', '7') => Some(State::OtherTerritory),
            ('9', '9') => Some(State::CentralJurisdiction),
            _ => None,
        }
    }

    /// Looks up a jurisdiction by either of its codes, case- and width-exact.
    pub fn from_code(code: &str) -> (r: Result<State, LookupError>)
        ensures
            match State::of_code(code@) {
                Some(st) => r == Ok::<State, LookupError>(st),
                None => r matches Err(LookupError::Unknown(c)) && c@ == code@,
            },
    {
        if code.unicode_len() == 2 {
            let a = code.get_char(0);
            let b = code.get_char(1);
            if let Some(st) = State::from_alpha(a, b) {
                return Ok(st);
            }
            if let Some(st) = State::from_numeric(a, b) {
                return Ok(st);
            }
        }
        Err(LookupError::Unknown(String::from_str(code)))
    }
}

/// Each jurisdiction is found again from either of its codes, and a lookup
/// that succeeds returns the jurisdiction that the code belongs to: the
/// mnemonic, the numeric code and the variant are in one-to-one correspondence.
pub proof fn lemma_jurisdiction_bijection(st: State, a: char, b: char)
    ensures
        State::of_code(st.alpha()) == Some(st),
        State::of_code(st.numeric()) == Some(st),
        State::of_alpha(st.alpha()[0], st.alpha()[1]) == Some(st),
        State::of_numeric(st.numeric()[0], st.numeric()[1]) == Some(st),
        State::of_alpha(a, b) == Some(st) ==> st.alpha() == seq![a, b],
        State::of_numeric(a, b) == Some(st) ==> st.numeric() == seq![a, b],
        State::of_code(seq![a, b]) == Some(st) <==> (st.alpha() == seq![a, b] || st.numeric()
            == seq![a, b]),
{
    assert(State::of_alpha(a, b) == Some(st) ==> st.alpha() =~= seq![a, b]);
    assert(State::of_numeric(a, b) == Some(st) ==> st.numeric() =~= seq![a, b]);
    assert(seq![a, b][0] == a && seq![a, b][1] == b);
}

/// Relies on String::push: appends the character `c` at the end.
#[verifier::external_body]
pub(crate) fn push_char(s: &mut String, c: char)
    ensures
        final(s)@ == old(s)@.push(c),
{
    s.push(c);
}

/// Tells whether the characters of `s` from `from` up to `to` are all
/// uppercase letters.
pub(crate) fn upper_span(s: &str, from: usize, to: usize) -> (r: bool)
    requires
        from <= to <= s@.len(),
    ensures
        r == all_upper(s@.subrange(from as int, to as int)),
{
    let mut i: usize = from;
    while i < to
        invariant
            from <= i <= to <= s@.len(),
            forall|j: int| from <= j < i ==> is_upper(#[trigger] s@[j]),
        decreases to - i,
    {
        if !is_upper_char(s.get_char(i)) {
            assert(s@.subrange(from as int, to as int)[i - from] == s@[i as int]);
            return false;
        }
        i = i + 1;
    }
    assert forall|k: int| 0 <= k < to - from implies is_upper(
        #[trigger] s@.subrange(from as int, to as int)[k],
    ) by {
        assert(s@.subrange(from as int, to as int)[k] == s@[from + k]);
    }
    true
}

/// Tells whether the characters of `s` from `from` up to `to` are all
/// decimal digits.
pub(crate) fn digit_span(s: &str, from: usize, to: usize) -> (r: bool)
    requires
        from <= to <= s@.len(),
    ensures
        r == all_digits(s@.subrange(from as int, to as int)),
{
    let mut i: usize = from;
    while i < to
        invariant
            from <= i <= to <= s@.len(),
            forall|j: int| from <= j < i ==> is_digit(#[trigger] s@[j]),
        decreases to - i,
    {
        if !is_digit_char(s.get_char(i)) {
            assert(s@.subrange(from as int, to as int)[i - from] == s@[i as int]);
            return false;
        }
        i = i + 1;
    }
    assert forall|k: int| 0 <= k < to - from implies is_digit(
        #[trigger] s@.subrange(from as int, to as int)[k],
    ) by {
        assert(s@.subrange(from as int, to as int)[k] == s@[from + k]);
    }
    true
}

/// A copy of the characters of `s` from `from` up to `to`.
pub(crate) fn span(s: &str, from: usize, to: usize) -> (r: String)
    requires
        from <= to <= s@.len(),
    ensures
        r@ == s@.subrange(from as int, to as int),
{
    String::from_str(s.substring_char(from, to))
}

} // verus!
