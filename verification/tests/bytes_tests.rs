use space_invaders::bytes::{assemble_word, high_order_byte, low_order_byte};

#[test]
fn split_word_into_bytes() {
    assert_eq!(low_order_byte(0xbeef), 0xef);
    assert_eq!(high_order_byte(0xbeef), 0xbe);
}

#[test]
fn assemble_word_from_bytes() {
    assert_eq!(assemble_word(0x12, 0x34), 0x1234);
    assert_eq!(assemble_word(0x00, 0x00), 0x0000);
    assert_eq!(assemble_word(0xff, 0xff), 0xffff);
}

#[test]
fn split_then_assemble_round_trips() {
    let w: u16 = 0xa5c3;
    assert_eq!(assemble_word(high_order_byte(w), low_order_byte(w)), w);
}
