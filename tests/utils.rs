use lcd1602_driver::utils::{check_bit, clear_bit, set_bit, BitState};

#[test]
fn bit_helpers() {
    assert_eq!(set_bit(0b0000_0000, 3), 0b0000_1000);
    assert_eq!(set_bit(0b0000_1000, 3), 0b0000_1000);
    assert_eq!(clear_bit(0b1111_1111, 0), 0b1111_1110);
    assert_eq!(clear_bit(0b0000_0000, 7), 0);
    assert_eq!(check_bit(0b1000_0000, 7), BitState::One);
    assert_eq!(check_bit(0b0111_1111, 7), BitState::Zero);
    assert_eq!(check_bit(0b0000_0001, 0), BitState::One);
}
