use lc3::sign_extend::SignExtend;
use lc3::utilities::sign_extend;

#[test]
fn sign_extend_sign_extend_positive_number() {
    assert_eq!(0b01010u16.sign_extend(5), 0b0000_0000_0000_1010);
}

#[test]
fn sign_extend_sign_extend_negative_number() {
    assert_eq!(0b10101u16.sign_extend(5), 0b1111_1111_1111_0101);
}

#[test]
fn utilities_sign_extend_positive_number() {
    assert_eq!(sign_extend(0b01010, 5), 0b0000_0000_0000_1010);
}

#[test]
fn utilities_sign_extend_negative_number() {
    assert_eq!(sign_extend(0b10101, 5), 0b1111_1111_1111_0101);
}

#[test]
fn sign_extend_widths() {
    assert_eq!(sign_extend(0x1ff, 9), 0xffff); // -1 in 9 bits
    assert_eq!(sign_extend(0x0ff, 9), 0x00ff);
    assert_eq!(sign_extend(0b10000000011, 11), 0xfc03); // 1027 in 11 bits
    assert_eq!(sign_extend(0b111111, 6), 0xffff);
    assert_eq!(sign_extend(0b011111, 6), 0x001f);
}
