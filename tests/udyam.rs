use india_ids::udyam::{UdyamError, UdyamMeta};
use india_ids::utils::State;
use india_ids::ValidationError;

#[test]
fn test_udyam() {
    let udyam = "UDYAM-UP-48-0123456";
    let um = UdyamMeta::from_udyam(udyam).unwrap();
    assert_eq!(um.state, State::UttarPradesh);
    assert_eq!(um.city, "48");
    assert_eq!(um.udyam_code, "0123456");
    assert_eq!(um.udyam(), udyam);

    println!("{:#?}", um);
    println!("Udyam: {}", um.udyam());
}

#[test]
fn udyam_invalid_state() {
    let udyam = "UDYAM-XX-48-0123456";
    let um = UdyamMeta::from_udyam(udyam);
    assert!(um.is_err());
    println!("{:?}", um);
}

#[test]
fn invalid_city() {
    let udyam = "UDYAM-UP-XX-0123456";
    let um = UdyamMeta::from_udyam(udyam);
    assert!(um.is_err());
    println!("{:?}", um);
}

#[test]
fn invalid_udyam_code() {
    let udyam = "UDYAM-UP-48-012345X";
    let um = UdyamMeta::from_udyam(udyam);
    assert!(um.is_err());
    println!("{:?}", um);
}

#[test]
fn udyam_error_variants() {
    let err = |s: &str| UdyamMeta::from_udyam(s).unwrap_err();
    assert_eq!(err("UDYAM-XX-48-0123456"), ValidationError::Udyam(UdyamError::InvalidJurisdiction));
    assert_eq!(err("UDYAM-UP-XX-0123456"), ValidationError::Udyam(UdyamError::Malformed));
    assert_eq!(err("UDYAM-UP-48-012345X"), ValidationError::Udyam(UdyamError::Malformed));
    assert_eq!(err("udyam-UP-48-0123456"), ValidationError::Udyam(UdyamError::Malformed));
    assert_eq!(err("UDYAM_UP-48-0123456"), ValidationError::Udyam(UdyamError::Malformed));
    assert_eq!(err("UDYAM-UP_48-0123456"), ValidationError::Udyam(UdyamError::Malformed));
    assert_eq!(err("UDYAM-up-48-0123456"), ValidationError::Udyam(UdyamError::Malformed));
    assert_eq!(err("UDYAM-09-48-0123456"), ValidationError::Udyam(UdyamError::Malformed));
    assert_eq!(err("UDYAM-UP-48-01234567"), ValidationError::Udyam(UdyamError::Malformed));
}

#[test]
fn udyam_round_trip() {
    let s = "UDYAM-TN-00-0000001";
    let um = UdyamMeta::from_udyam(s).unwrap();
    assert_eq!(um.state, State::TamilNadu);
    assert_eq!(um.city, "00");
    assert_eq!(um.udyam(), s);
    assert_eq!(UdyamMeta::from_udyam(&um.udyam()).unwrap(), um);
}
