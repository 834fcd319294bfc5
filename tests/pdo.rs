use pd_sink::pdo::Pdo;

#[test]
fn fixed_fields_decode_native_units() {
    let p = Pdo::FixedSupply((1 << 23) | (400 << 10) | 225);
    assert_eq!(p.fixed_fields(), Some((400, 225)));
    assert!(p.is_epr_capable_fixed());
    assert_eq!(p.avs_fields(), None);
    assert!(!Pdo::FixedSupply(100 << 10).is_epr_capable_fixed());
    assert!(!Pdo::Battery(1 << 23).is_epr_capable_fixed());
}

#[test]
fn avs_fields_decode_native_units() {
    let p = Pdo::Avs((0b11 << 30) | (0b01 << 28) | (280 << 17) | (150 << 8) | 140);
    assert_eq!(p.avs_fields(), Some((150, 280, 140)));
    assert_eq!(p.fixed_fields(), None);
}

#[test]
fn zero_padding() {
    assert!(Pdo::FixedSupply(0).is_zero_padding());
    assert!(!Pdo::FixedSupply(1).is_zero_padding());
    assert_eq!(Pdo::Unknown(7).word(), 7);
}
