use vm15::word::Address;
use vm15::word::WordClass;
use vm15::word::classify;
use vm15::word::get_addr;

#[test]
fn classify_literals() {
    assert_eq!(classify(0), WordClass::Literal(0));
    assert_eq!(classify(1), WordClass::Literal(1));
    assert_eq!(classify(32767), WordClass::Literal(32767));
}

#[test]
fn classify_register_refs() {
    assert_eq!(classify(32768), WordClass::RegisterRef(0));
    assert_eq!(classify(32771), WordClass::RegisterRef(3));
    assert_eq!(classify(32775), WordClass::RegisterRef(7));
}

#[test]
fn classify_invalid() {
    assert_eq!(classify(32776), WordClass::Invalid);
    assert_eq!(classify(40000), WordClass::Invalid);
    assert_eq!(classify(65535), WordClass::Invalid);
}

#[test]
fn get_addr_ranges() {
    assert_eq!(get_addr(0), Some(Address::Mem(0)));
    assert_eq!(get_addr(32767), Some(Address::Mem(32767)));
    assert_eq!(get_addr(32768), Some(Address::Reg(0)));
    assert_eq!(get_addr(32770), Some(Address::Reg(2)));
    assert_eq!(get_addr(32775), Some(Address::Reg(7)));
    assert_eq!(get_addr(32776), None);
    assert_eq!(get_addr(65535), None);
}
