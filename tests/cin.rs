use india_ids::cin::{CinError, CinMeta, Classification};
use india_ids::utils::State;
use india_ids::ValidationError;

#[test]
fn test_cin() {
    let cin = "L93030DL2010PLC198141";
    let c = CinMeta::from_cin(cin).unwrap();
    assert!(c.listed);
    assert_eq!(c.industry_code, "93030");
    assert_eq!(c.state, State::Delhi);
    assert_eq!(c.incorporation_year, "2010");
    assert_eq!(c.classification, Classification::PLC);
    assert_eq!(c.registration_number, "198141");
    assert_eq!(c.cin(), cin);
    println!("{:#?}", c);
    println!("CIN {}", c.cin());
}

#[test]
fn invalid_listing_status() {
    let cin = "X93030DL2010PLC198141";
    let c = CinMeta::from_cin(cin);
    assert!(c.is_err());
    println!("{:#?}", c);
}

#[test]
fn invalid_industry_code() {
    let cin = "L934R04DL2010PLC198141";
    let c = CinMeta::from_cin(cin);
    assert!(c.is_err());
    println!("{:#?}", c);
}

#[test]
fn cin_invalid_state() {
    let cin = "L93030XX2010PLC198141";
    let c = CinMeta::from_cin(cin);
    assert!(c.is_err());
    println!("{:#?}", c);
}

#[test]
fn invalid_classification() {
    let cin = "L93030DL2010XXX198141";
    let c = CinMeta::from_cin(cin);
    assert!(c.is_err());
    println!("{:#?}", c);
}

#[test]
fn invalid_cin() {
    let cin = "L93030DL2010PLC1981414";
    let c = CinMeta::from_cin(cin);
    assert!(c.is_err());
    println!("{:#?}", c);
}

#[test]
fn cin_error_variants() {
    let err = |s: &str| CinMeta::from_cin(s).unwrap_err();
    assert_eq!(err("X93030DL2010PLC198141"), ValidationError::Cin(CinError::InvalidListingStatus));
    assert_eq!(err("L93030XX2010PLC198141"), ValidationError::Cin(CinError::InvalidJurisdiction));
    assert_eq!(err("L93030DL2010XXX198141"), ValidationError::Cin(CinError::InvalidClassification));
    assert_eq!(err("L9303ADL2010PLC198141"), ValidationError::Cin(CinError::Malformed));
    assert_eq!(err("L93030D12010PLC198141"), ValidationError::Cin(CinError::Malformed));
    assert_eq!(err("L93030DL201XPLC198141"), ValidationError::Cin(CinError::Malformed));
    assert_eq!(err("L93030DL2010PL1198141"), ValidationError::Cin(CinError::Malformed));
    assert_eq!(err("L93030DL2010PLC19814X"), ValidationError::Cin(CinError::Malformed));
    assert_eq!(err("L93030DL2010PLC1981414"), ValidationError::Cin(CinError::Malformed));
    assert_eq!(err("L934R04DL2010PLC198141"), ValidationError::Cin(CinError::Malformed));
}

#[test]
fn cin_unlisted_round_trip() {
    let cin = "U01234KA1999OPC000042";
    let c = CinMeta::from_cin(cin).unwrap();
    assert!(!c.listed);
    assert_eq!(c.state, State::Karnataka);
    assert_eq!(c.classification, Classification::OPC);
    assert_eq!(c.industry_code, "01234");
    assert_eq!(c.registration_number, "000042");
    assert_eq!(c.cin(), cin);
    assert_eq!(CinMeta::from_cin(&c.cin()).unwrap(), c);
}

#[test]
fn cin_every_classification() {
    for (s, k) in [
        ("FLC", Classification::FLC),
        ("FTC", Classification::FTC),
        ("GAP", Classification::GAP),
        ("GAT", Classification::GAT),
        ("GOI", Classification::GOI),
        ("NPL", Classification::NPL),
        ("OPC", Classification::OPC),
        ("PLC", Classification::PLC),
        ("PTC", Classification::PTC),
        ("SGC", Classification::SGC),
        ("ULL", Classification::ULL),
        ("ULT", Classification::ULT),
    ] {
        let cin = format!("L93030MH2010{}198141", s);
        let c = CinMeta::from_cin(&cin).unwrap();
        assert_eq!(c.classification, k);
        assert_eq!(k.code(), s);
        assert_eq!(c.cin(), cin);
    }
}

#[test]
fn cin_length_rejected() {
    for s in ["", "L93030DL2010PLC19814", "L93030DL2010PLC1981410"] {
        assert_eq!(CinMeta::from_cin(s).unwrap_err(), ValidationError::Cin(CinError::Malformed));
    }
}
