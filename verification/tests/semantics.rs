use tiny_machine::instructions::{Instruction, InstructionError};
use tiny_machine::machine::{MACHINE_SIZE, Machine};
use tiny_machine::memory::{MEMORY_SIZE, Memory, MemoryError};
use tiny_machine::profile::Profile;
use tiny_machine::registers::{RegisterError, Registers};

// Writing a nibble and reading it back round-trips for every 4-bit
// value, and a write of a larger value fails leaving memory unchanged.
#[test]
fn nibble_round_trip() {
    for v in 0u8..16 {
        let mut mem = Memory::default().set_all([0x81; MEMORY_SIZE]);
        assert!(mem.set_loc(5, v).is_ok());
        assert_eq!(mem.get_loc(5).unwrap(), v);
        assert_eq!(mem.get_loc(4).unwrap(), 0x8);
        assert_eq!(mem.get_loc(6).unwrap(), 0x8);
    }
    let mut mem = Memory::default().set_all([0x81; MEMORY_SIZE]);
    assert_eq!(mem.set_loc(5, 16), Err(MemoryError::ValueTooLarge(16)));
    assert_eq!(*mem.get_all(), [0x81; MEMORY_SIZE]);
}

// Register file wire codec round-trips both ways.
#[test]
fn register_codec_round_trip() {
    let reg = Registers::from_bytes(&[0x47, 0x23]);
    assert_eq!(reg.to_bytes(), [0x47, 0x23]);

    let mut reg = Registers::default();
    let _ = reg.set_ip(9);
    let _ = reg.set_li(12);
    let _ = reg.set_fr(6);
    let _ = reg.set_ac(1);
    let bytes = reg.to_bytes();
    let back = Registers::from_bytes(&bytes);
    assert_eq!(back, reg);
}

// The instruction word at every location is its own nibble above the
// nibble of the following location, wrapping at the boundary.
#[test]
fn word_read_matches_nibbles() {
    let mem = Memory::default().set_all([0x01, 0x23, 0x45, 0x67, 0x89, 0xAB, 0xCD, 0xEF]);
    for off in 0usize..16 {
        let hi = mem.get_loc(off).unwrap();
        let lo = mem.get_loc((off + 1) % 16).unwrap();
        assert_eq!(mem.get_loc_u8(off).unwrap(), hi * 16 + lo);
    }
}

// ADC: AC=9, mem=8, CF=1 gives the 5-bit sum 18: AC=2, CF=bit 4 of the
// sum (set), OF set because CF did not change, ZF clear.
#[test]
fn adc_carry_and_overflow() {
    let slice: [u8; MACHINE_SIZE] = [0x00, 0x19, 0xA3, 0x08, 0, 0, 0, 0, 0, 0];
    let mut mac = Machine::from_bytes(&slice);
    assert_eq!(mac.exec(Profile::Open).unwrap(), 2); // adc 3; hlt
    let reg = mac.get_reg();
    assert_eq!(reg.get_ac(), 2);
    assert_eq!(reg.get_cf(), true);
    assert_eq!(reg.get_of(), true);
    assert_eq!(reg.get_zf(), false);
    assert_eq!(reg.get_hf(), true);
}

// ADC without carry out: 1 + 2 + 0 = 3, CF clear afterwards, OF set
// (carry unchanged).
#[test]
fn adc_no_carry() {
    let slice: [u8; MACHINE_SIZE] = [0x00, 0x01, 0xA3, 0x02, 0, 0, 0, 0, 0, 0];
    let mut mac = Machine::from_bytes(&slice);
    assert_eq!(mac.exec(Profile::Open).unwrap(), 2);
    let reg = mac.get_reg();
    assert_eq!(reg.get_ac(), 3);
    assert_eq!(reg.get_cf(), false);
    assert_eq!(reg.get_of(), true);
}

// ROL: AC=0b1001, CF=0: the old bit 3 moves into CF, the old CF into
// bit 0; CF changed, so OF is clear.
#[test]
fn rol_through_carry() {
    let slice: [u8; MACHINE_SIZE] = [0x00, 0x09, 0x80, 0x00, 0, 0, 0, 0, 0, 0];
    let mut mac = Machine::from_bytes(&slice);
    assert_eq!(mac.exec(Profile::Open).unwrap(), 2); // rol; hlt
    let reg = mac.get_reg();
    assert_eq!(reg.get_ac(), 0b0010);
    assert_eq!(reg.get_cf(), true);
    assert_eq!(reg.get_of(), false);
    assert_eq!(reg.get_zf(), false);
}

// ROR: AC=0b0011, CF=1: the old bit 0 moves into CF, the old CF into
// bit 3; CF unchanged, so OF is set.
#[test]
fn ror_through_carry() {
    let slice: [u8; MACHINE_SIZE] = [0x00, 0x13, 0x90, 0x00, 0, 0, 0, 0, 0, 0];
    let mut mac = Machine::from_bytes(&slice);
    assert_eq!(mac.exec(Profile::Open).unwrap(), 2); // ror; hlt
    let reg = mac.get_reg();
    assert_eq!(reg.get_ac(), 0b1001);
    assert_eq!(reg.get_cf(), true);
    assert_eq!(reg.get_of(), true);
}

// FLA complements all four bits of AC.
#[test]
fn fla_complements() {
    let slice: [u8; MACHINE_SIZE] = [0x00, 0x05, 0xF0, 0x00, 0, 0, 0, 0, 0, 0];
    let mut mac = Machine::from_bytes(&slice);
    assert_eq!(mac.exec(Profile::Open).unwrap(), 2); // fla; hlt
    assert_eq!(mac.get_reg().get_ac(), 0b1010);
    assert_eq!(mac.get_reg().get_zf(), false);
}

// DEL wraps the loop index below zero and recomputes ZF.
#[test]
fn del_wraps() {
    let slice: [u8; MACHINE_SIZE] = [0x00, 0x00, 0xD0, 0x00, 0, 0, 0, 0, 0, 0];
    let mut mac = Machine::from_bytes(&slice);
    assert_eq!(mac.exec(Profile::Open).unwrap(), 2); // del; hlt
    assert_eq!(mac.get_reg().get_li(), 0xF);
    assert_eq!(mac.get_reg().get_zf(), false);
}

// LDA loads AC from memory and recomputes ZF; STA stores AC back.
#[test]
fn lda_and_sta() {
    // lda 7; sta 6; hlt — memory nibbles: [4,7,5,6,0,0,0,C,...]
    let slice: [u8; MACHINE_SIZE] = [0x00, 0x00, 0x47, 0x56, 0x00, 0x0C, 0, 0, 0, 0];
    let mut mac = Machine::from_bytes(&slice);
    assert_eq!(mac.exec(Profile::Open).unwrap(), 3);
    assert_eq!(mac.get_reg().get_ac(), 0xC);
    assert_eq!(mac.get_mem().get_loc(6).unwrap(), 0xC);
}

// JZE jumps when ZF is set.
#[test]
fn jze_taken() {
    let slice: [u8; MACHINE_SIZE] = [0x00, 0x20, 0x25, 0x00, 0, 0, 0, 0, 0, 0];
    let mut mac = Machine::from_bytes(&slice);
    assert_eq!(mac.exec(Profile::Open).unwrap(), 2); // jze 5; hlt
    assert_eq!(mac.get_reg().get_ip(), 5);
}

// LDL loads the loop index from memory and recomputes ZF.
#[test]
fn ldl_loads() {
    let slice: [u8; MACHINE_SIZE] = [0x00, 0x00, 0xE5, 0x00, 0x09, 0, 0, 0, 0, 0];
    let mut mac = Machine::from_bytes(&slice);
    assert_eq!(mac.exec(Profile::Open).unwrap(), 2); // ldl 5; hlt
    assert_eq!(mac.get_reg().get_li(), 9);
    assert_eq!(mac.get_reg().get_zf(), false);
}

// SCF sets the carry flag, CCF clears it again.
#[test]
fn scf_and_ccf() {
    let slice: [u8; MACHINE_SIZE] = [0x00, 0x00, 0xC0, 0x00, 0, 0, 0, 0, 0, 0];
    let mut mac = Machine::from_bytes(&slice);
    assert_eq!(mac.exec(Profile::Open).unwrap(), 2); // scf; hlt
    assert_eq!(mac.get_reg().get_cf(), true);

    let slice: [u8; MACHINE_SIZE] = [0x00, 0x00, 0xCB, 0x00, 0, 0, 0, 0, 0, 0];
    let mut mac = Machine::from_bytes(&slice);
    assert_eq!(mac.exec(Profile::Open).unwrap(), 3); // scf; ccf; hlt
    assert_eq!(mac.get_reg().get_cf(), false);
    assert_eq!(mac.get_reg().get_hf(), true);
}

// JZE falls through when ZF is clear: IP moves past the operand and the
// instruction is still counted.
#[test]
fn jze_not_taken() {
    let mut mac = Machine::default();
    let inst = Instruction::JZE(5);
    assert_eq!(inst.call(&mut mac, Profile::Open), Err(InstructionError::JumpNotTaken));
    assert_eq!(mac.get_reg().get_ip(), 2);
}

// JNZ jumps exactly when ZF is clear.
#[test]
fn jnz_taken() {
    let mut mac = Machine::default();
    let inst = Instruction::JNZ(5);
    assert_eq!(inst.call(&mut mac, Profile::Open), Ok(()));
    assert_eq!(mac.get_reg().get_ip(), 5);
}

// A jump to its own location loops forever and is cut off exactly at
// the execution budget.
#[test]
fn jmp_self_hits_budget() {
    let slice: [u8; MACHINE_SIZE] = [0x00, 0x00, 0x10, 0x00, 0, 0, 0, 0, 0, 0];
    let mut mac = Machine::from_bytes(&slice);
    assert_eq!(mac.exec(Profile::Open).unwrap(), 100);
    assert_eq!(mac.get_cc(), 100);
    assert_eq!(mac.get_reg().get_hf(), false);
}

// GET and PUT drain the seeded input queue into the output queue under
// the port-enabled profile.
#[test]
fn ports_drain_under_profile_c() {
    // get;put five times, then hlt — nibbles [6,7,6,7,6,7,6,7,6,7,0,...]
    let slice: [u8; MACHINE_SIZE] = [0x00, 0x00, 0x67, 0x67, 0x67, 0x67, 0x67, 0x00, 0, 0];
    let mut mac = Machine::from_payload_bytes(&slice, Profile::C);
    assert_eq!(*mac.get_inp(), [1, 2, 3, 4, 5]);
    assert_eq!(mac.exec(Profile::C).unwrap(), 11);
    assert_eq!(*mac.get_inp(), [0, 0, 0, 0, 0]);
    assert_eq!(*mac.get_outp(), [5, 4, 3, 2, 1]);
    assert_eq!(mac.get_reg().get_ac(), 5);
}

// GET outside the port-enabled profile is an invalid instruction and
// surfaces as an execution error.
#[test]
fn get_invalid_outside_profile_c() {
    let slice: [u8; MACHINE_SIZE] = [0x00, 0x00, 0x60, 0x00, 0, 0, 0, 0, 0, 0];
    let mut mac = Machine::from_bytes(&slice);
    let res = mac.exec(Profile::Open);
    assert!(res.is_err());
    assert_eq!(mac.get_reg().get_hf(), true);
    assert_eq!(mac.get_cc(), 0);
}

// The profile that suppresses invalid instructions still halts on one,
// but the run ends normally.
#[test]
fn invalid_suppressed_under_profile_a() {
    let slice: [u8; MACHINE_SIZE] = [0x00, 0x00, 0x60, 0x00, 0, 0, 0, 0, 0, 0];
    let mut mac = Machine::from_payload_bytes(&slice, Profile::A);
    assert_eq!(mac.exec(Profile::A).unwrap(), 1);
    assert_eq!(mac.get_reg().get_hf(), true);
}

// Popping the input queue shifts it forward and fills with zero; an
// empty queue yields zero.  Pushing the output queue discards the
// oldest entry once full.
#[test]
fn port_queues_shift() {
    let mut mac = Machine::default();
    assert_eq!(mac.pop_inp(), 0);
    mac.push_outp(3);
    assert_eq!(*mac.get_outp(), [3, 0, 0, 0, 0]);
    for v in 4..10 {
        mac.push_outp(v);
    }
    assert_eq!(*mac.get_outp(), [9, 8, 7, 6, 5]);
}

// The acceptance predicate of profile A: small counter, IP in its
// window, AC exactly 4, and the fixed leading memory bytes.
#[test]
fn profile_a_acceptance() {
    let slice: [u8; MACHINE_SIZE] =
        [0x50, 0x04, 0x30, 0x42, 0x79, 0x74, 0x65, 0x43, 0x54, 0x46];
    let mac = Machine::from_bytes(&slice).set_cc(5);
    assert!(mac.is_valid(Profile::A));
    let other: [u8; MACHINE_SIZE] =
        [0x50, 0x05, 0x30, 0x42, 0x79, 0x74, 0x65, 0x43, 0x54, 0x46];
    let mac = Machine::from_bytes(&other).set_cc(5);
    assert!(!mac.is_valid(Profile::A));
}

// The acceptance predicate of profile B: counter under the budget and
// AC exactly 5.
#[test]
fn profile_b_acceptance() {
    let slice: [u8; MACHINE_SIZE] = [0x00, 0x05, 0x00, 0, 0, 0, 0, 0, 0, 0];
    let mut mac = Machine::from_bytes(&slice);
    assert!(mac.exec(Profile::B).is_ok());
    assert!(mac.is_valid(Profile::B));
    assert!(!Machine::default().is_valid(Profile::B));
}

// The acceptance predicate of profile C: counter between its bounds,
// input queue drained, output queue holding exactly five down to one.
#[test]
fn profile_c_acceptance() {
    let mut mac = Machine::from_payload_bytes(&[0; MACHINE_SIZE], Profile::C);
    for _ in 0..5 {
        let v = mac.pop_inp();
        mac.push_outp(v);
    }
    let mac = mac.set_cc(41);
    assert!(mac.is_valid(Profile::C));
    assert!(!mac.set_cc(40).is_valid(Profile::C));
}

// The default profile accepts any machine.
#[test]
fn open_profile_accepts() {
    assert!(Machine::default().is_valid(Profile::Open));
}

// Register setters refuse values above four bits.
#[test]
fn register_value_too_large() {
    let mut reg = Registers::default();
    assert_eq!(reg.set_ip(16), Err(RegisterError::ValueTooLarge(16)));
    assert_eq!(reg.set_li(0x42), Err(RegisterError::ValueTooLarge(0x42)));
    assert_eq!(reg.set_fr(255), Err(RegisterError::ValueTooLarge(255)));
    assert_eq!(reg.set_ac(16), Err(RegisterError::ValueTooLarge(16)));
    assert_eq!(reg, Registers::default());
}

// Out-of-bounds memory errors carry the offending location.
#[test]
fn memory_out_of_bounds() {
    let mem = Memory::default();
    assert_eq!(mem.get_loc(16), Err(MemoryError::OutOfBounds(16)));
    assert_eq!(mem.get_loc_u8(99), Err(MemoryError::OutOfBounds(99)));
}

// The fetched instruction at IP.
#[test]
fn current_instruction_decodes() {
    let slice: [u8; MACHINE_SIZE] = [0x00, 0x00, 0x1F, 0x00, 0, 0, 0, 0, 0, 0];
    let mac = Machine::from_bytes(&slice);
    assert_eq!(mac.current_instruction(), Instruction::JMP(0xF));
}

// The INVALID sentinel always fails and names its code.
#[test]
fn invalid_sentinel_fails() {
    let mut mac = Machine::default();
    let inst = Instruction::INVALID(9);
    assert_eq!(inst.call(&mut mac, Profile::Open), Err(InstructionError::InvalidInstruction(9)));
}

// Instruction widths: one location without an operand, two with one.
#[test]
fn instruction_sizes() {
    assert_eq!(Instruction::HLT.size(), 1);
    assert_eq!(Instruction::ROL.size(), 1);
    assert_eq!(Instruction::JMP(3).size(), 2);
    assert_eq!(Instruction::ADC(0).size(), 2);
    assert_eq!(Instruction::INVALID(0).size(), 2);
}

// The renderer's disassembly of a zeroed memory is sixteen halts.
#[test]
fn disassemble_zeroed() {
    let mac = Machine::default();
    let listing = mac.disassemble();
    assert_eq!(listing.len(), 16);
    for inst in &listing {
        assert_eq!(*inst, Instruction::HLT);
    }
}

// Disassembly steps over operands: a jump takes two locations.
#[test]
fn disassemble_steps_by_width() {
    let slice: [u8; MACHINE_SIZE] = [0x00, 0x00, 0x15, 0x00, 0, 0, 0, 0, 0, 0];
    let mac = Machine::from_bytes(&slice);
    let listing = mac.disassemble();
    assert_eq!(listing[0], Instruction::JMP(5));
    assert_eq!(listing[1], Instruction::HLT);
    assert_eq!(listing.len(), 15);
}

// Instruction names as the renderer shows them.
#[test]
fn instruction_names() {
    assert_eq!(Instruction::HLT.describe(), "Halt");
    assert_eq!(Instruction::JMP(15).describe(), "Jump (f)");
    assert_eq!(Instruction::LDL(12).describe(), "Load Loop Index (12)");
    assert_eq!(Instruction::INVALID(7).describe(), "Invalid Instruction (7)");
}
