use space_invaders::machine::{Keys, PortFault, SpaceInvadersMachine, mask_for_key};

#[test]
fn boot_state_has_coin_bit() {
    let m = SpaceInvadersMachine::new();
    assert_eq!(m.input(1), Ok(0x01));
    assert_eq!(m.input(2), Ok(0x00));
}

#[test]
fn input_ports_return_register_bytes() {
    let mut m = SpaceInvadersMachine::new();
    m.press_key(Keys::Start1);
    m.press_key(Keys::Shoot2);
    // register: coin (0x0001) | start1 (0x0004) | shoot2 (0x1000)
    assert_eq!(m.input(1), Ok(0x05));
    assert_eq!(m.input(2), Ok(0x10));
}

#[test]
fn shift_register_offset_zero() {
    let mut m = SpaceInvadersMachine::new();
    assert_eq!(m.output(4, 0xff), Ok(()));
    assert_eq!(m.output(4, 0x00), Ok(()));
    assert_eq!(m.output(2, 0), Ok(()));
    // window = ((0x00 << 8) | 0xff) >> 8 = 0x00: the newest write comes back
    assert_eq!(m.input(3), Ok(0x00));
}

#[test]
fn shift_register_offset_seven() {
    let mut m = SpaceInvadersMachine::new();
    assert_eq!(m.output(4, 0xff), Ok(()));
    assert_eq!(m.output(4, 0x00), Ok(()));
    assert_eq!(m.output(2, 7), Ok(()));
    // window = ((0x00 << 8) | 0xff) >> 1 = 0x7f: seven bits of the older byte
    assert_eq!(m.input(3), Ok(0x7f));
}

#[test]
fn shift_register_middle_offset() {
    let mut m = SpaceInvadersMachine::new();
    assert_eq!(m.output(4, 0xab), Ok(()));
    assert_eq!(m.output(4, 0xcd), Ok(()));
    assert_eq!(m.output(2, 3), Ok(()));
    // window = (0xcdab >> 5) & 0xff = 0x6d
    assert_eq!(m.input(3), Ok(0x6d));
}

#[test]
fn shift_offset_masked_to_three_bits() {
    let mut m = SpaceInvadersMachine::new();
    assert_eq!(m.output(4, 0xff), Ok(()));
    assert_eq!(m.output(4, 0x00), Ok(()));
    // 0xff masked to 3 bits is 7, so this reads the same window as offset 7
    assert_eq!(m.output(2, 0xff), Ok(()));
    assert_eq!(m.input(3), Ok(0x7f));
}

#[test]
fn unknown_input_port_faults() {
    let m = SpaceInvadersMachine::new();
    assert_eq!(m.input(0), Err(PortFault { port: 0, write: false }));
    assert_eq!(m.input(7), Err(PortFault { port: 7, write: false }));
    assert_eq!(m.input(255), Err(PortFault { port: 255, write: false }));
}

#[test]
fn unknown_output_port_faults() {
    let mut m = SpaceInvadersMachine::new();
    assert_eq!(m.output(0, 1), Err(PortFault { port: 0, write: true }));
    assert_eq!(m.output(1, 1), Err(PortFault { port: 1, write: true }));
    assert_eq!(m.output(7, 1), Err(PortFault { port: 7, write: true }));
}

#[test]
fn noop_output_ports_leave_state_alone() {
    let mut m = SpaceInvadersMachine::new();
    m.output(4, 0x55).unwrap();
    m.output(2, 2).unwrap();
    let before = (m.input(1), m.input(2), m.input(3));
    assert_eq!(m.output(3, 0xaa), Ok(()));
    assert_eq!(m.output(5, 0xaa), Ok(()));
    assert_eq!(m.output(6, 0xaa), Ok(()));
    assert_eq!((m.input(1), m.input(2), m.input(3)), before);
}

#[test]
fn press_key_sets_bit() {
    let mut m = SpaceInvadersMachine::new();
    m.press_key(Keys::Left1);
    assert_eq!(m.port & mask_for_key(Keys::Left1), mask_for_key(Keys::Left1));
}

#[test]
fn release_key_clears_bit() {
    let mut m = SpaceInvadersMachine::new();
    m.press_key(Keys::Right2);
    m.release_key(Keys::Right2);
    assert_eq!(m.port & mask_for_key(Keys::Right2), 0);
}

#[test]
fn press_key_idempotent() {
    let mut m = SpaceInvadersMachine::new();
    m.press_key(Keys::Shoot1);
    let once = m.port;
    m.press_key(Keys::Shoot1);
    assert_eq!(m.port, once);
}
