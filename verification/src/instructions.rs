//! The instruction set.
//!
//! An instruction word is one byte: the opcode in the high nibble and,
//! for the opcodes that carry one, an address or value operand in the
//! low nibble.  Every opcode nibble decodes to a real instruction, so
//! the inert INVALID sentinel is reachable only by construction, never
//! by decoding.

use vstd::prelude::*;

verus! {

use vstd::string::StringExecFns;

use crate::MAX_VALUE;
use crate::machine::{Machine, MachineV};
use crate::memory::MemoryError;
use crate::profile::Profile;
use crate::registers::{RegisterError, RegistersV, wrap_dec};

pub type InstructionResult<I> = Result<I, InstructionError>;

#[derive(Clone, Copy, Debug, PartialEq, Eq, Structural)]
pub enum InstructionError {
    /// A conditional jump whose condition did not hold: the loop
    /// continues, this is never surfaced as a failure.
    JumpNotTaken,
    InvalidInstruction(u8),
    OutOfBounds(usize),
    ValueTooLarge(u8),
    MathError(usize),
}

/// The text describing an execution failure.
pub open spec fn instruction_error_text(e: InstructionError) -> Seq<char> {
    "Instruction Error: "@ + match e {
        InstructionError::JumpNotTaken => "Jump not taken"@,
        InstructionError::InvalidInstruction(v) => "Invalid instruction: "@
            + crate::text::spec_hex_lower(v as nat),
        InstructionError::OutOfBounds(v) => "Out of bounds operation: "@
            + crate::text::spec_hex_lower(v as nat),
        InstructionError::ValueTooLarge(v) => "Value too large for register: "@
            + crate::text::spec_decimal(v as nat),
        InstructionError::MathError(v) => "Math error from: "@ + crate::text::spec_decimal(
            v as nat,
        ),
    }
}

impl InstructionError {
    /// Render the failure description.
    pub fn describe(&self) -> (s: String)
        ensures
            s@ == instruction_error_text(*self),
    {
        let mut s = "Instruction Error: ".to_owned();
        match *self {
            InstructionError::JumpNotTaken => {
                s.append("Jump not taken");
            },
            InstructionError::InvalidInstruction(v) => {
                s.append("Invalid instruction: ");
                let d = crate::text::hex_string_lower(v as usize);
                s.append(d.as_str());
            },
            InstructionError::OutOfBounds(v) => {
                s.append("Out of bounds operation: ");
                let d = crate::text::hex_string_lower(v);
                s.append(d.as_str());
            },
            InstructionError::ValueTooLarge(v) => {
                s.append("Value too large for register: ");
                let d = crate::text::decimal_string(v as usize);
                s.append(d.as_str());
            },
            InstructionError::MathError(v) => {
                s.append("Math error from: ");
                let d = crate::text::decimal_string(v);
                s.append(d.as_str());
            },
        };
        proof {
            assert(s@ =~= instruction_error_text(*self));
        }
        s
    }
}

impl From<RegisterError> for InstructionError {
    fn from(err: RegisterError) -> (r: Self) {
        match err {
            RegisterError::ValueTooLarge(v) => InstructionError::ValueTooLarge(v),
            RegisterError::MathError(v) => InstructionError::MathError(v),
        }
    }
}

impl vstd::std_specs::convert::FromSpecImpl<RegisterError> for InstructionError {
    open spec fn obeys_from_spec() -> bool {
        true
    }

    open spec fn from_spec(err: RegisterError) -> InstructionError {
        match err {
            RegisterError::ValueTooLarge(v) => InstructionError::ValueTooLarge(v),
            RegisterError::MathError(v) => InstructionError::MathError(v),
        }
    }
}

impl From<MemoryError> for InstructionError {
    fn from(err: MemoryError) -> (r: Self) {
        match err {
            MemoryError::OutOfBounds(v) => InstructionError::OutOfBounds(v),
            MemoryError::ValueTooLarge(v) => InstructionError::ValueTooLarge(v),
            MemoryError::MathError(v) => InstructionError::MathError(v),
        }
    }
}

impl vstd::std_specs::convert::FromSpecImpl<MemoryError> for InstructionError {
    open spec fn obeys_from_spec() -> bool {
        true
    }

    open spec fn from_spec(err: MemoryError) -> InstructionError {
        match err {
            MemoryError::OutOfBounds(v) => InstructionError::OutOfBounds(v),
            MemoryError::ValueTooLarge(v) => InstructionError::ValueTooLarge(v),
            MemoryError::MathError(v) => InstructionError::MathError(v),
        }
    }
}

/// The sixteen opcodes, plus the inert INVALID sentinel used as a
/// default and for conversions.
#[derive(Clone, Copy, Debug, PartialEq, Eq, Structural)]
pub enum Instruction {
    /// Halt: set HF, leave IP alone.
    HLT,
    /// Unconditional jump.
    JMP(u8),
    /// Jump if the zero flag is set.
    JZE(u8),
    /// Jump if the zero flag is clear.
    JNZ(u8),
    /// Load AC from a memory location.
    LDA(u8),
    /// Store AC to a memory location.
    STA(u8),
    /// Load AC from the input port (port-enabled profile only).
    GET,
    /// Push AC to the output port (port-enabled profile only).
    PUT,
    /// Rotate AC left through the carry flag.
    ROL,
    /// Rotate AC right through the carry flag.
    ROR,
    /// Add a memory location and the carry flag to AC.
    ADC(u8),
    /// Clear the carry flag.
    CCF,
    /// Set the carry flag.
    SCF,
    /// Decrement the loop index.
    DEL,
    /// Load LI from a memory location.
    LDL(u8),
    /// Complement the four bits of AC.
    FLA,
    /// Never executes; always fails with `InvalidInstruction`.
    INVALID(u8),
}

/// The instruction encoded by a word: opcode in the high nibble,
/// operand (where one is carried) in the low nibble.
pub open spec fn decode(val: u8) -> Instruction {
    let opcode = (val / 16) as u8;
    let addr = (val % 16) as u8;
    if opcode == 0x0 {
        Instruction::HLT
    } else if opcode == 0x1 {
        Instruction::JMP(addr)
    } else if opcode == 0x2 {
        Instruction::JZE(addr)
    } else if opcode == 0x3 {
        Instruction::JNZ(addr)
    } else if opcode == 0x4 {
        Instruction::LDA(addr)
    } else if opcode == 0x5 {
        Instruction::STA(addr)
    } else if opcode == 0x6 {
        Instruction::GET
    } else if opcode == 0x7 {
        Instruction::PUT
    } else if opcode == 0x8 {
        Instruction::ROL
    } else if opcode == 0x9 {
        Instruction::ROR
    } else if opcode == 0xA {
        Instruction::ADC(addr)
    } else if opcode == 0xB {
        Instruction::CCF
    } else if opcode == 0xC {
        Instruction::SCF
    } else if opcode == 0xD {
        Instruction::DEL
    } else if opcode == 0xE {
        Instruction::LDL(addr)
    } else if opcode == 0xF {
        Instruction::FLA
    } else {
        // An opcode is a nibble, so this sentinel is unreachable.
        Instruction::INVALID(opcode)
    }
}

/// The number of memory locations an instruction occupies: two for the
/// opcodes that carry an operand and for the INVALID sentinel, one for
/// the rest.
pub open spec fn spec_size(inst: Instruction) -> u8 {
    match inst {
        Instruction::HLT => 1,
        Instruction::GET => 1,
        Instruction::PUT => 1,
        Instruction::ROL => 1,
        Instruction::ROR => 1,
        Instruction::CCF => 1,
        Instruction::SCF => 1,
        Instruction::DEL => 1,
        Instruction::FLA => 1,
        Instruction::JMP(_) => 2,
        Instruction::JZE(_) => 2,
        Instruction::JNZ(_) => 2,
        Instruction::LDA(_) => 2,
        Instruction::STA(_) => 2,
        Instruction::ADC(_) => 2,
        Instruction::LDL(_) => 2,
        Instruction::INVALID(_) => 2,
    }
}

/// The human-readable name of an instruction for the renderer's
/// disassembly listing: jump and load/store operands in hexadecimal,
/// the others in decimal.
pub open spec fn instruction_text(inst: Instruction) -> Seq<char> {
    match inst {
        Instruction::HLT => "Halt"@,
        Instruction::JMP(a) => "Jump ("@ + crate::text::spec_hex_lower(a as nat) + ")"@,
        Instruction::JZE(a) => "Jump Zero ("@ + crate::text::spec_hex_lower(a as nat) + ")"@,
        Instruction::JNZ(a) => "Jump Not Zero ("@ + crate::text::spec_hex_lower(a as nat) + ")"@,
        Instruction::LDA(a) => "Load AC ("@ + crate::text::spec_hex_lower(a as nat) + ")"@,
        Instruction::STA(a) => "Store AC ("@ + crate::text::spec_hex_lower(a as nat) + ")"@,
        Instruction::GET => "Get AC from Input"@,
        Instruction::PUT => "Put AC into Output"@,
        Instruction::ROL => "Roll AC Left"@,
        Instruction::ROR => "Roll AC Right"@,
        Instruction::ADC(a) => "Add and Carry ("@ + crate::text::spec_decimal(a as nat) + ")"@,
        Instruction::CCF => "Clear Carry Flag"@,
        Instruction::SCF => "Set Carry Flag"@,
        Instruction::DEL => "Decrement Loop Index"@,
        Instruction::LDL(a) => "Load Loop Index ("@ + crate::text::spec_decimal(a as nat) + ")"@,
        Instruction::FLA => "Negate AC"@,
        Instruction::INVALID(i) => "Invalid Instruction ("@ + crate::text::spec_decimal(i as nat)
            + ")"@,
    }
}

/// An operand, where the instruction carries one, fits in four bits.
/// Decoding guarantees this; it is demanded of instructions built by
/// hand.
pub open spec fn inst_wf(inst: Instruction) -> bool {
    match inst {
        Instruction::JMP(a) => a <= MAX_VALUE,
        Instruction::JZE(a) => a <= MAX_VALUE,
        Instruction::JNZ(a) => a <= MAX_VALUE,
        Instruction::LDA(a) => a <= MAX_VALUE,
        Instruction::STA(a) => a <= MAX_VALUE,
        Instruction::ADC(a) => a <= MAX_VALUE,
        Instruction::LDL(a) => a <= MAX_VALUE,
        _ => true,
    }
}

/// IP advanced by the width of the executed instruction, wrapping in
/// the 4-bit domain.
pub open spec fn ip_plus(r: RegistersV, k: int) -> u8 {
    ((r.ip + k) % 16) as u8
}

/// The effect of one instruction on a machine: the machine afterwards,
/// paired with the outcome.  `Ok` is normal completion; the errors are
/// the control signal `JumpNotTaken` (a conditional jump whose
/// condition failed, IP already moved past the operand) and
/// `InvalidInstruction` (the INVALID sentinel, or GET/PUT outside the
/// port-enabled profile), which leaves the machine untouched.
pub open spec fn step(inst: Instruction, m: MachineV, profile: Profile) -> (
    MachineV,
    InstructionResult<()>,
)
    recommends
        inst_wf(inst),
        m.inv(),
{
    match inst {
        Instruction::HLT => (
            MachineV { regs: RegistersV { hf: true, ..m.regs }, ..m },
            Ok(()),
        ),
        Instruction::JMP(addr) => (
            MachineV { regs: RegistersV { ip: addr, ..m.regs }, ..m },
            Ok(()),
        ),
        Instruction::JZE(addr) => if m.regs.zf {
            (MachineV { regs: RegistersV { ip: addr, ..m.regs }, ..m }, Ok(()))
        } else {
            (
                MachineV { regs: RegistersV { ip: ip_plus(m.regs, 2), ..m.regs }, ..m },
                Err(InstructionError::JumpNotTaken),
            )
        },
        Instruction::JNZ(addr) => if !m.regs.zf {
            (MachineV { regs: RegistersV { ip: addr, ..m.regs }, ..m }, Ok(()))
        } else {
            (
                MachineV { regs: RegistersV { ip: ip_plus(m.regs, 2), ..m.regs }, ..m },
                Err(InstructionError::JumpNotTaken),
            )
        },
        Instruction::LDA(addr) => {
            let v = m.mem[addr as int];
            (
                MachineV {
                    regs: RegistersV { ip: ip_plus(m.regs, 2), ac: v, zf: v == 0, ..m.regs },
                    ..m
                },
                Ok(()),
            )
        },
        Instruction::STA(addr) => (
            MachineV {
                regs: RegistersV { ip: ip_plus(m.regs, 2), ..m.regs },
                mem: m.mem.update(addr as int, m.regs.ac),
                ..m
            },
            Ok(()),
        ),
        Instruction::GET => if profile.ports_enabled() {
            let v = m.inp[0];
            (
                MachineV {
                    regs: RegistersV { ip: ip_plus(m.regs, 1), ac: v, zf: v == 0, ..m.regs },
                    inp: m.inp.subrange(1, 5).push(0),
                    ..m
                },
                Ok(()),
            )
        } else {
            (m, Err(InstructionError::InvalidInstruction(0x6)))
        },
        Instruction::PUT => if profile.ports_enabled() {
            (
                MachineV {
                    regs: RegistersV { ip: ip_plus(m.regs, 1), ..m.regs },
                    outp: seq![m.regs.ac] + m.outp.subrange(0, 4),
                    ..m
                },
                Ok(()),
            )
        } else {
            (m, Err(InstructionError::InvalidInstruction(0x7)))
        },
        Instruction::ROL => {
            let new_cf = m.regs.ac >= 8;
            let new_ac = ((m.regs.ac * 2) % 16 + (if m.regs.cf {
                1int
            } else {
                0int
            })) as u8;
            (
                MachineV {
                    regs: RegistersV {
                        ip: ip_plus(m.regs, 1),
                        ac: new_ac,
                        cf: new_cf,
                        of: m.regs.cf == new_cf,
                        zf: new_ac == 0,
                        ..m.regs
                    },
                    ..m
                },
                Ok(()),
            )
        },
        Instruction::ROR => {
            let new_cf = m.regs.ac % 2 == 1;
            let new_ac = (m.regs.ac / 2 + (if m.regs.cf {
                8int
            } else {
                0int
            })) as u8;
            (
                MachineV {
                    regs: RegistersV {
                        ip: ip_plus(m.regs, 1),
                        ac: new_ac,
                        cf: new_cf,
                        of: m.regs.cf == new_cf,
                        zf: new_ac == 0,
                        ..m.regs
                    },
                    ..m
                },
                Ok(()),
            )
        },
        Instruction::ADC(addr) => {
            let sum = m.regs.ac + m.mem[addr as int] + (if m.regs.cf {
                1int
            } else {
                0int
            });
            let new_ac = (sum % 16) as u8;
            let new_cf = sum >= 16;
            (
                MachineV {
                    regs: RegistersV {
                        ip: ip_plus(m.regs, 2),
                        ac: new_ac,
                        cf: new_cf,
                        of: m.regs.cf == new_cf,
                        zf: new_ac == 0,
                        ..m.regs
                    },
                    ..m
                },
                Ok(()),
            )
        },
        Instruction::CCF => (
            MachineV { regs: RegistersV { ip: ip_plus(m.regs, 1), cf: false, ..m.regs }, ..m },
            Ok(()),
        ),
        Instruction::SCF => (
            MachineV { regs: RegistersV { ip: ip_plus(m.regs, 1), cf: true, ..m.regs }, ..m },
            Ok(()),
        ),
        Instruction::DEL => {
            let li = wrap_dec(m.regs.li);
            (
                MachineV {
                    regs: RegistersV { ip: ip_plus(m.regs, 1), li, zf: li == 0, ..m.regs },
                    ..m
                },
                Ok(()),
            )
        },
        Instruction::LDL(addr) => {
            let li = m.mem[addr as int];
            (
                MachineV {
                    regs: RegistersV { ip: ip_plus(m.regs, 2), li, zf: li == 0, ..m.regs },
                    ..m
                },
                Ok(()),
            )
        },
        Instruction::FLA => {
            let new_ac = (15 - m.regs.ac) as u8;
            (
                MachineV {
                    regs: RegistersV {
                        ip: ip_plus(m.regs, 1),
                        ac: new_ac,
                        zf: new_ac == 0,
                        ..m.regs
                    },
                    ..m
                },
                Ok(()),
            )
        },
        Instruction::INVALID(inst) => (m, Err(InstructionError::InvalidInstruction(inst))),
    }
}

/// ADC carry/overflow law: for every 4-bit AC, memory value and carry
/// flag, ADC computes the 5-bit sum AC + mem + CF, leaves its low four
/// bits in AC, puts its bit 4 into CF, and sets OF exactly when CF is
/// unchanged by the operation.  ADC itself never fails.
pub proof fn lemma_adc_carry_overflow(m: MachineV, addr: u8, profile: Profile)
    requires
        m.inv(),
        addr <= MAX_VALUE,
    ensures
        ({
            let sum = m.regs.ac + m.mem[addr as int] + (if m.regs.cf {
                1int
            } else {
                0int
            });
            let s = step(Instruction::ADC(addr), m, profile);
            &&& s.1 == InstructionResult::<()>::Ok(())
            &&& s.0.regs.ac == sum % 16
            &&& s.0.regs.cf == ((sum / 16) % 2 == 1)
            &&& s.0.regs.of == (m.regs.cf == s.0.regs.cf)
            &&& s.0.regs.zf == (sum % 16 == 0)
        }),
{
    let sum = m.regs.ac + m.mem[addr as int] + (if m.regs.cf {
        1int
    } else {
        0int
    });
    assert(0 <= sum <= 31);
    assert((sum >= 16) == ((sum / 16) % 2 == 1));
}

impl Default for Instruction {
    /// The inert sentinel.
    fn default() -> (r: Self)
        ensures
            r == Instruction::INVALID(0),
    {
        Instruction::INVALID(0x00)
    }
}

impl From<u8> for Instruction {
    /// Decode one instruction word.
    fn from(val: u8) -> (r: Instruction) {
        let addr = val % 16;
        match val / 16 {
            0x0 => Instruction::HLT,
            0x1 => Instruction::JMP(addr),
            0x2 => Instruction::JZE(addr),
            0x3 => Instruction::JNZ(addr),
            0x4 => Instruction::LDA(addr),
            0x5 => Instruction::STA(addr),
            0x6 => Instruction::GET,
            0x7 => Instruction::PUT,
            0x8 => Instruction::ROL,
            0x9 => Instruction::ROR,
            0xA => Instruction::ADC(addr),
            0xB => Instruction::CCF,
            0xC => Instruction::SCF,
            0xD => Instruction::DEL,
            0xE => Instruction::LDL(addr),
            0xF => Instruction::FLA,
            i => Instruction::INVALID(i),
        }
    }
}

impl vstd::std_specs::convert::FromSpecImpl<u8> for Instruction {
    open spec fn obeys_from_spec() -> bool {
        true
    }

    open spec fn from_spec(val: u8) -> Instruction {
        decode(val)
    }
}

impl Instruction {
    /// The number of memory locations this instruction occupies.
    pub fn size(&self) -> (r: u8)
        ensures
            r == spec_size(*self),
    {
        match *self {
            Instruction::HLT | Instruction::GET | Instruction::PUT | Instruction::ROL
                | Instruction::ROR | Instruction::CCF | Instruction::SCF | Instruction::DEL
                | Instruction::FLA => 1,
            Instruction::JMP(_) | Instruction::JZE(_) | Instruction::JNZ(_) | Instruction::LDA(_)
                | Instruction::STA(_) | Instruction::ADC(_) | Instruction::LDL(_) => 2,
            Instruction::INVALID(_) => 2,
        }
    }

    /// Render the instruction's name for a disassembly listing.
    pub fn describe(&self) -> (s: String)
        ensures
            s@ == instruction_text(*self),
    {
        let s = match *self {
            Instruction::HLT => "Halt".to_owned(),
            Instruction::JMP(a) => {
                let mut s = "Jump (".to_owned();
                let d = crate::text::hex_string_lower(a as usize);
                s.append(d.as_str());
                s.append(")");
                s
            },
            Instruction::JZE(a) => {
                let mut s = "Jump Zero (".to_owned();
                let d = crate::text::hex_string_lower(a as usize);
                s.append(d.as_str());
                s.append(")");
                s
            },
            Instruction::JNZ(a) => {
                let mut s = "Jump Not Zero (".to_owned();
                let d = crate::text::hex_string_lower(a as usize);
                s.append(d.as_str());
                s.append(")");
                s
            },
            Instruction::LDA(a) => {
                let mut s = "Load AC (".to_owned();
                let d = crate::text::hex_string_lower(a as usize);
                s.append(d.as_str());
                s.append(")");
                s
            },
            Instruction::STA(a) => {
                let mut s = "Store AC (".to_owned();
                let d = crate::text::hex_string_lower(a as usize);
                s.append(d.as_str());
                s.append(")");
                s
            },
            Instruction::GET => "Get AC from Input".to_owned(),
            Instruction::PUT => "Put AC into Output".to_owned(),
            Instruction::ROL => "Roll AC Left".to_owned(),
            Instruction::ROR => "Roll AC Right".to_owned(),
            Instruction::ADC(a) => {
                let mut s = "Add and Carry (".to_owned();
                let d = crate::text::decimal_string(a as usize);
                s.append(d.as_str());
                s.append(")");
                s
            },
            Instruction::CCF => "Clear Carry Flag".to_owned(),
            Instruction::SCF => "Set Carry Flag".to_owned(),
            Instruction::DEL => "Decrement Loop Index".to_owned(),
            Instruction::LDL(a) => {
                let mut s = "Load Loop Index (".to_owned();
                let d = crate::text::decimal_string(a as usize);
                s.append(d.as_str());
                s.append(")");
                s
            },
            Instruction::FLA => "Negate AC".to_owned(),
            Instruction::INVALID(i) => {
                let mut s = "Invalid Instruction (".to_owned();
                let d = crate::text::decimal_string(i as usize);
                s.append(d.as_str());
                s.append(")");
                s
            },
        };
        proof {
            assert(s@ =~= instruction_text(*self));
        }
        s
    }

    /// Apply this instruction to the machine.  The outcome and the new
    /// machine state are exactly those of the `step` semantics; the
    /// caller decides how to count and how to surface errors.
    #[verifier::rlimit(100)]
    #[verifier::spinoff_prover]
    pub fn call(&self, machine: &mut Machine, profile: Profile) -> (r: InstructionResult<()>)
        requires
            inst_wf(*self),
            old(machine).wf(),
        ensures
            final(machine).wf(),
            final(machine)@ == step(*self, old(machine)@, profile).0,
            r == step(*self, old(machine)@, profile).1,
    {
        match *self {
            Instruction::HLT => {
                let reg = machine.get_mut_reg();
                reg.set_hf(true);
                Ok(())
            },
            Instruction::JMP(addr) => self.jump(addr, machine),
            Instruction::JZE(addr) => {
                if machine.get_reg().get_zf() {
                    self.jump(addr, machine)
                } else {
                    let reg = machine.get_mut_reg();
                    reg.inc_ip();
                    let reg = machine.get_mut_reg();
                    reg.inc_ip();
                    Err(InstructionError::JumpNotTaken)
                }
            },
            Instruction::JNZ(addr) => {
                if !machine.get_reg().get_zf() {
                    self.jump(addr, machine)
                } else {
                    let reg = machine.get_mut_reg();
                    reg.inc_ip();
                    let reg = machine.get_mut_reg();
                    reg.inc_ip();
                    Err(InstructionError::JumpNotTaken)
                }
            },
            Instruction::LDA(addr) => {
                let reg = machine.get_mut_reg();
                reg.inc_ip();
                let reg = machine.get_mut_reg();
                reg.inc_ip();
                let ac = match machine.get_mem().get_loc(addr as usize) {
                    Ok(v) => v,
                    Err(e) => return Err(InstructionError::from(e)),
                };
                let reg = machine.get_mut_reg();
                match reg.set_ac(ac) {
                    Ok(()) => (),
                    Err(e) => return Err(InstructionError::from(e)),
                };
                let reg = machine.get_mut_reg();
                reg.set_zf(ac == 0);
                Ok(())
            },
            Instruction::STA(addr) => {
                let reg = machine.get_mut_reg();
                reg.inc_ip();
                let reg = machine.get_mut_reg();
                reg.inc_ip();
                let ac = machine.get_reg().get_ac();
                let mem = machine.get_mut_mem();
                match mem.set_loc(addr as usize, ac) {
                    Ok(()) => Ok(()),
                    Err(e) => Err(InstructionError::from(e)),
                }
            },
            Instruction::GET => {
                if !matches!(profile, Profile::C) {
                    return Err(InstructionError::InvalidInstruction(0x6));
                }
                let reg = machine.get_mut_reg();
                reg.inc_ip();
                let ac = machine.pop_inp();
                let reg = machine.get_mut_reg();
                match reg.set_ac(ac) {
                    Ok(()) => (),
                    Err(e) => return Err(InstructionError::from(e)),
                };
                Ok(())
            },
            Instruction::PUT => {
                if !matches!(profile, Profile::C) {
                    return Err(InstructionError::InvalidInstruction(0x7));
                }
                let reg = machine.get_mut_reg();
                reg.inc_ip();
                let ac = machine.get_reg().get_ac();
                machine.push_outp(ac);
                Ok(())
            },
            Instruction::ROL => {
                let reg = machine.get_mut_reg();
                reg.inc_ip();
                let cf = machine.get_reg().get_cf();
                let ac = machine.get_reg().get_ac();
                let new_cf = ac >= 8;
                let new_ac = (ac * 2) % 16 + (if cf {
                    1u8
                } else {
                    0u8
                });
                let reg = machine.get_mut_reg();
                reg.set_cf(new_cf);
                let reg = machine.get_mut_reg();
                match reg.set_ac(new_ac) {
                    Ok(()) => (),
                    Err(e) => return Err(InstructionError::from(e)),
                };
                let reg = machine.get_mut_reg();
                reg.set_of(cf == new_cf);
                let reg = machine.get_mut_reg();
                reg.set_zf(new_ac == 0);
                Ok(())
            },
            Instruction::ROR => {
                let reg = machine.get_mut_reg();
                reg.inc_ip();
                let cf = machine.get_reg().get_cf();
                let ac = machine.get_reg().get_ac();
                let new_cf = ac % 2 == 1;
                let new_ac = ac / 2 + (if cf {
                    8u8
                } else {
                    0u8
                });
                let reg = machine.get_mut_reg();
                reg.set_cf(new_cf);
                let reg = machine.get_mut_reg();
                match reg.set_ac(new_ac) {
                    Ok(()) => (),
                    Err(e) => return Err(InstructionError::from(e)),
                };
                let reg = machine.get_mut_reg();
                reg.set_of(cf == new_cf);
                let reg = machine.get_mut_reg();
                reg.set_zf(new_ac == 0);
                Ok(())
            },
            Instruction::ADC(addr) => {
                let reg = machine.get_mut_reg();
                reg.inc_ip();
                let reg = machine.get_mut_reg();
                reg.inc_ip();
                let val = match machine.get_mem().get_loc(addr as usize) {
                    Ok(v) => v,
                    Err(e) => return Err(InstructionError::from(e)),
                };
                let cf = machine.get_reg().get_cf();
                // 4-bit addends and the carry: the sum stays well below u8::MAX.
                let sum = machine.get_reg().get_ac() + val + (if cf {
                    1u8
                } else {
                    0u8
                });
                let new_ac = sum % 16;
                let new_cf = sum >= 16;
                let reg = machine.get_mut_reg();
                match reg.set_ac(new_ac) {
                    Ok(()) => (),
                    Err(e) => return Err(InstructionError::from(e)),
                };
                let reg = machine.get_mut_reg();
                reg.set_cf(new_cf);
                let reg = machine.get_mut_reg();
                reg.set_of(cf == new_cf);
                let reg = machine.get_mut_reg();
                reg.set_zf(new_ac == 0);
                Ok(())
            },
            Instruction::CCF => {
                let reg = machine.get_mut_reg();
                reg.inc_ip();
                let reg = machine.get_mut_reg();
                reg.set_cf(false);
                Ok(())
            },
            Instruction::SCF => {
                let reg = machine.get_mut_reg();
                reg.inc_ip();
                let reg = machine.get_mut_reg();
                reg.set_cf(true);
                Ok(())
            },
            Instruction::DEL => {
                let reg = machine.get_mut_reg();
                reg.inc_ip();
                let reg = machine.get_mut_reg();
                reg.dec_li();
                let li = machine.get_reg().get_li();
                let reg = machine.get_mut_reg();
                reg.set_zf(li == 0);
                Ok(())
            },
            Instruction::LDL(addr) => {
                let reg = machine.get_mut_reg();
                reg.inc_ip();
                let reg = machine.get_mut_reg();
                reg.inc_ip();
                let li = match machine.get_mem().get_loc(addr as usize) {
                    Ok(v) => v,
                    Err(e) => return Err(InstructionError::from(e)),
                };
                let reg = machine.get_mut_reg();
                match reg.set_li(li) {
                    Ok(()) => (),
                    Err(e) => return Err(InstructionError::from(e)),
                };
                let reg = machine.get_mut_reg();
                reg.set_zf(li == 0);
                Ok(())
            },
            Instruction::FLA => {
                let reg = machine.get_mut_reg();
                reg.inc_ip();
                let ac = machine.get_reg().get_ac();
                let new_ac = 15 - ac;
                let reg = machine.get_mut_reg();
                match reg.set_ac(new_ac) {
                    Ok(()) => (),
                    Err(e) => return Err(InstructionError::from(e)),
                };
                let reg = machine.get_mut_reg();
                reg.set_zf(new_ac == 0);
                Ok(())
            },
            Instruction::INVALID(inst) => Err(InstructionError::InvalidInstruction(inst)),
        }
    }

    /// Move IP to the jump target.
    fn jump(&self, addr: u8, machine: &mut Machine) -> (r: InstructionResult<()>)
        requires
            addr <= MAX_VALUE,
            old(machine).wf(),
        ensures
            final(machine).wf(),
            final(machine)@ == (MachineV {
                regs: RegistersV { ip: addr, ..old(machine)@.regs },
                ..old(machine)@
            }),
            r == InstructionResult::<()>::Ok(()),
    {
        let reg = machine.get_mut_reg();
        match reg.set_ip(addr) {
            Ok(()) => Ok(()),
            Err(e) => Err(InstructionError::from(e)),
        }
    }
}

} // verus!
