use india_ids::cin::CinMeta;
use india_ids::gstin::GstinMeta;
use india_ids::udyam::UdyamMeta;
use india_ids::utils::{LookupError, State};

const TABLE: [(State, &str, &str); 39] = [
    (State::AndhraPradesh, "AP", "28"),
    (State::ArunachalPradesh, "AR", "12"),
    (State::Assam, "AS", "18"),
    (State::Bihar, "BR", "10"),
    (State::Chhattisgarh, "CG", "22"),
    (State::Goa, "GA", "30"),
    (State::Gujarat, "GJ", "24"),
    (State::Haryana, "HR", "06"),
    (State::HimachalPradesh, "HP", "02"),
    (State::JammuAndKashmir, "JK", "01"),
    (State::Jharkhand, "JH", "20"),
    (State::Karnataka, "KA", "29"),
    (State::Kerala, "KL", "32"),
    (State::MadhyaPradesh, "MP", "23"),
    (State::Maharashtra, "MH", "27"),
    (State::Manipur, "MN", "14"),
    (State::Meghalaya, "ML", "17"),
    (State::Mizoram, "MZ", "15"),
    (State::Nagaland, "NL", "13"),
    (State::Odisha, "OR", "21"),
    (State::Punjab, "PB", "03"),
    (State::Rajasthan, "RJ", "08"),
    (State::Sikkim, "SK", "11"),
    (State::TamilNadu, "TN", "33"),
    (State::Tripura, "TR", "16"),
    (State::Uttarakhand, "UK", "05"),
    (State::UttarPradesh, "UP", "09"),
    (State::WestBengal, "WB", "19"),
    (State::AndamanAndNicobarIslands, "AN", "35"),
    (State::Chandigarh, "CH", "04"),
    (State::DadraAndNagarHaveli, "DH", "26"),
    (State::DamanAndDiu, "DD", "25"),
    (State::Delhi, "DL", "07"),
    (State::Lakshadweep, "LD", "31"),
    (State::Puducherry, "PY", "34"),
    (State::Telangana, "TS", "36"),
    (State::Ladakh, "LA", "38"),
    (State::OtherTerritory, "OT", "97"),
    (State::CentralJurisdiction, "CJ", "99"),
];

#[test]
fn every_jurisdiction_both_ways() {
    for (st, alpha, numeric) in TABLE {
        assert_eq!(st.code(), alpha);
        assert_eq!(st.numeric_code(), numeric);
        assert_eq!(State::from_code(alpha), Ok(st));
        assert_eq!(State::from_code(numeric), Ok(st));
        let a: Vec<char> = alpha.chars().collect();
        let n: Vec<char> = numeric.chars().collect();
        assert_eq!(State::from_alpha(a[0], a[1]), Some(st));
        assert_eq!(State::from_numeric(n[0], n[1]), Some(st));
    }
}

#[test]
fn codes_are_distinct() {
    for (i, x) in TABLE.iter().enumerate() {
        for y in TABLE.iter().skip(i + 1) {
            assert_ne!(x.0, y.0);
            assert_ne!(x.1, y.1);
            assert_ne!(x.2, y.2);
        }
    }
}

#[test]
fn unknown_codes_rejected() {
    for code in ["XX", "00", "2", "9", "ap", "Ap", "028", "", "APX", "37", "98"] {
        assert_eq!(State::from_code(code), Err(LookupError::Unknown(code.to_string())));
    }
}

#[test]
fn every_jurisdiction_in_every_kind() {
    for (st, alpha, numeric) in TABLE {
        let cin = format!("U12345{}2001PTC000001", alpha);
        assert_eq!(CinMeta::from_cin(&cin).unwrap().state, st);
        assert_eq!(CinMeta::from_cin(&cin).unwrap().cin(), cin);
        let gstin = format!("{}AAAPZ1234C1Z5", numeric);
        assert_eq!(GstinMeta::from_gstin(&gstin).unwrap().state, st);
        assert_eq!(GstinMeta::from_gstin(&gstin).unwrap().gstin(), gstin);
        let udyam = format!("UDYAM-{}-12-7654321", alpha);
        assert_eq!(UdyamMeta::from_udyam(&udyam).unwrap().state, st);
        assert_eq!(UdyamMeta::from_udyam(&udyam).unwrap().udyam(), udyam);
    }
}
