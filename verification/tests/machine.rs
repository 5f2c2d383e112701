use tiny_machine::machine::{MACHINE_SIZE, Machine};
use tiny_machine::memory::Memory;
use tiny_machine::profile::Profile;
use tiny_machine::registers::Registers;

#[test]
fn machine_default() {
    let mac = Machine::default();
    assert_eq!(*mac.get_reg(), Registers::default());
    assert_eq!(*mac.get_mem(), Memory::default());
    assert_eq!(mac.get_cc(), 0);
}

#[test]
fn mut_registers() {
    let mut mac = Machine::default();
    let reg = mac.get_mut_reg();
    let _ = reg.set_ip(1);
    let _ = reg.set_li(2);
    let _ = reg.set_fr(3);
    let _ = reg.set_ac(4);
    assert_eq!(reg.get_ip(), 1);
    assert_eq!(reg.get_li(), 2);
    // Setting AC recomputes ZF, so bit 1 of FR is cleared by set_ac(4).
    assert_eq!(reg.get_fr(), 1);
    assert_eq!(reg.get_ac(), 4);
}

#[test]
fn mut_memory() {
    let mut mac = Machine::default();
    let mem = mac.get_mut_mem();
    assert!(mem.set_loc(0, 0b1010).is_ok());
    assert!(mem.set_loc(1, 0b1011).is_ok());
    assert_eq!(mem.get_loc(0).unwrap(), 0xA);
    assert_eq!(mem.get_loc(1).unwrap(), 0xB);
}

#[test]
fn into_machine() {
    let slice: [u8; MACHINE_SIZE] = [0x0, 0x1, 0x2, 0x3, 0x4, 0x5, 0x6, 0x7, 0x8, 0x9];
    let mac = Machine::from_bytes(&slice);
    let reg = mac.get_reg();
    let mem = mac.get_mem();
    assert_eq!(reg.get_ip(), 0);
    assert_eq!(reg.get_li(), 0);
    assert_eq!(reg.get_fr(), 0);
    assert_eq!(reg.get_ac(), 1);
    assert_eq!(mem.get_loc(0).unwrap(), 0);
    assert_eq!(mem.get_loc(1).unwrap(), 2);
    assert_eq!(mem.get_loc(15).unwrap(), 9);
    assert!(mem.get_loc(16).is_err());
}

#[test]
fn exec_halt() {
    let mut mac = Machine::default();
    assert!(mac.exec(Profile::Open).is_ok());
    assert_eq!(mac.get_cc(), 1);
    let reg = mac.get_reg();
    assert_eq!(reg.get_ip(), 0);
    assert_eq!(reg.get_hf(), true);
}

#[test]
fn jmp_halt() {
    // Location 0 holds JMP 0xF; the word fetched at location 15 wraps
    // into the high nibble of byte 0 and decodes to HLT.
    let slice: [u8; MACHINE_SIZE] = [0x00, 0x00, 0x1F, 0x00, 0x00, 0x00, 0x00, 0x00, 0x00, 0x00];
    let mut mac = Machine::from_bytes(&slice);
    assert!(mac.exec(Profile::Open).is_ok());
    assert_eq!(mac.get_cc(), 2); // jmp 0xF; hlt
    assert_eq!(mac.get_reg().get_ip(), 0xF);
}
