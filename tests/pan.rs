use india_ids::pan::{HolderType, PanError, PanMeta};
use india_ids::ValidationError;

#[test]
fn test_pan() {
    let pan = "AAAPZ1234C";
    let pm = PanMeta::from_pan(pan).unwrap();
    assert_eq!(pm.code, "AAA");
    assert_eq!(pm.holder_type, HolderType::Person);
    assert_eq!(pm.name_char, 'Z');
    assert_eq!(pm.registration_number, "1234");
    assert_eq!(pm.checksum, 'C');
    assert_eq!(pm.pan(), pan);

    println!("{:#?}", pm);
    println!("PAN: {}", pm.pan());
}

#[test]
fn invalid_holder_type() {
    let pan = "AAAXZ1234X";
    let pm = PanMeta::from_pan(pan);
    assert!(pm.is_err());
    println!("{:?}", pm);
}

#[test]
fn invalid_registration_number() {
    let pan = "AAAPZ12G4X";
    let pm = PanMeta::from_pan(pan);
    assert!(pm.is_err());
    println!("{:?}", pm);
}

#[test]
fn invalid_name_char() {
    let pan = "AAAP41234X";
    let pm = PanMeta::from_pan(pan);
    assert!(pm.is_err());
    println!("{:?}", pm);
}

#[test]
fn pan_error_variants() {
    assert_eq!(PanMeta::from_pan("AAAXZ1234X").unwrap_err(), ValidationError::Pan(PanError::InvalidHolderType));
    assert_eq!(PanMeta::from_pan("AAAPZ12G4X").unwrap_err(), ValidationError::Pan(PanError::InvalidRegistrationNumber));
    assert_eq!(PanMeta::from_pan("AAAP41234X").unwrap_err(), ValidationError::Pan(PanError::Malformed));
    assert_eq!(PanMeta::from_pan("A1APZ1234C").unwrap_err(), ValidationError::Pan(PanError::Malformed));
    assert_eq!(PanMeta::from_pan("AAAPZ12345").unwrap_err(), ValidationError::Pan(PanError::Malformed));
    assert_eq!(PanMeta::from_pan("aaapz1234c").unwrap_err(), ValidationError::Pan(PanError::Malformed));
}

#[test]
fn pan_length_rejected() {
    for s in ["", "AAAPZ1234", "AAAPZ1234CC", "AAAPZ1234C "] {
        assert_eq!(PanMeta::from_pan(s).unwrap_err(), ValidationError::Pan(PanError::Malformed));
    }
}

#[test]
fn pan_round_trip_every_holder_type() {
    for (c, h) in [
        ('A', HolderType::AOP),
        ('B', HolderType::BOI),
        ('C', HolderType::Company),
        ('F', HolderType::Firm),
        ('G', HolderType::Government),
        ('H', HolderType::HUF),
        ('L', HolderType::LocalAuthority),
        ('J', HolderType::ArtificialJuridicalPerson),
        ('P', HolderType::Person),
        ('T', HolderType::Trust),
    ] {
        let s = format!("ZYX{}Q0007K", c);
        let pm = PanMeta::from_pan(&s).unwrap();
        assert_eq!(pm.holder_type, h);
        assert_eq!(h.code(), c);
        assert_eq!(HolderType::from_letter(c), Some(h));
        assert_eq!(pm.registration_number, "0007");
        assert_eq!(pm.pan(), s);
        assert_eq!(PanMeta::from_pan(&pm.pan()).unwrap(), pm);
    }
    assert_eq!(HolderType::from_letter('D'), None);
}

#[test]
fn pan_serialize_built_record() {
    let pm = PanMeta {
        code: "BCD".to_string(),
        holder_type: HolderType::Trust,
        name_char: 'M',
        registration_number: "0420".to_string(),
        checksum: 'Q',
    };
    assert_eq!(pm.pan(), "BCDTM0420Q");
}
