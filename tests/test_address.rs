use hemul::cpu::address::Address;
use hemul::Word;

#[test]
fn test_zero_page() {
    assert_eq!(0x66 as Word, Address::Zero(0x66).into());
}

#[test]
fn test_full() {
    assert_eq!(0x8866 as Word, Address::Full(0x66, 0x88).into());
}

#[test]
fn test_from_word() {
    assert_eq!(Address::from(0x8866), Address::Full(0x66, 0x88));
}

#[test]
fn test_from_bytes() {
    assert_eq!(Address::from((0x66, 0x88)), Address::Full(0x66, 0x88));
}

#[test]
fn address_round_trip_on_edges() {
    for w in [0x0000u16, 0x0001, 0x00FF, 0x0100, 0x7FFF, 0x8000, 0xFF00, 0xFFFF, 0x1234] {
        let back: Word = Address::from(w).into();
        assert_eq!(back, w);
    }
}

#[test]
fn address_split_gives_low_then_high() {
    assert_eq!(Address::from_word(0x01FF), Address::Full(0xFF, 0x01));
    assert_eq!(Address::Full(0xFF, 0x01).to_word(), 0x01FF);
    assert_eq!(Address::Zero(0xFF).to_word(), 0x00FF);
}
