//! The virtual machine.
//!
//! A machine owns one register file, one memory, the two 5-slot port
//! queues and the executed-instruction counter.  It is created from the
//! ten-byte client payload — two register bytes followed by eight
//! memory bytes — and is driven by the bounded fetch-execute loop.

use vstd::prelude::*;

verus! {

use vstd::string::StringExecFns;

use crate::MAX_VALUE;
use crate::instructions::{
    Instruction,
    InstructionError,
    InstructionResult,
    decode,
    inst_wf,
    spec_size,
    step,
};
use crate::memory::{Memory, MemoryError, byte_of_nibbles, mem_inv, nibbles_of_bytes, word_at};
use crate::profile::Profile;
use crate::registers::{Registers, RegisterError, RegistersV, regs_of_bytes, regs_zeroed};

pub type MachineResult<M> = Result<M, MachineError>;

#[derive(Clone, Copy, Debug, PartialEq, Eq, Structural)]
pub enum MachineError {
    InstructionError(InstructionError),
    RegisterError(RegisterError),
    MemoryError(MemoryError),
    UnknownError,
}

/// The text describing a machine failure: the owning layer's prefix
/// followed by the wrapped failure's own description.
pub open spec fn machine_error_text(e: MachineError) -> Seq<char> {
    "Machine Error: "@ + match e {
        MachineError::InstructionError(inner) => crate::instructions::instruction_error_text(
            inner,
        ),
        MachineError::RegisterError(inner) => crate::registers::register_error_text(inner),
        MachineError::MemoryError(inner) => crate::memory::memory_error_text(inner),
        MachineError::UnknownError => "Unknown Error"@,
    }
}

impl MachineError {
    /// Render the failure description.
    pub fn describe(&self) -> (s: String)
        ensures
            s@ == machine_error_text(*self),
    {
        let mut s = "Machine Error: ".to_owned();
        match *self {
            MachineError::InstructionError(inner) => {
                let d = inner.describe();
                s.append(d.as_str());
            },
            MachineError::RegisterError(inner) => {
                let d = inner.describe();
                s.append(d.as_str());
            },
            MachineError::MemoryError(inner) => {
                let d = inner.describe();
                s.append(d.as_str());
            },
            MachineError::UnknownError => {
                s.append("Unknown Error");
            },
        };
        proof {
            assert(s@ =~= machine_error_text(*self));
        }
        s
    }
}

impl From<InstructionError> for MachineError {
    fn from(err: InstructionError) -> (r: MachineError) {
        MachineError::InstructionError(err)
    }
}

impl vstd::std_specs::convert::FromSpecImpl<InstructionError> for MachineError {
    open spec fn obeys_from_spec() -> bool {
        true
    }

    open spec fn from_spec(err: InstructionError) -> MachineError {
        MachineError::InstructionError(err)
    }
}

impl From<RegisterError> for MachineError {
    fn from(err: RegisterError) -> (r: MachineError) {
        MachineError::RegisterError(err)
    }
}

impl vstd::std_specs::convert::FromSpecImpl<RegisterError> for MachineError {
    open spec fn obeys_from_spec() -> bool {
        true
    }

    open spec fn from_spec(err: RegisterError) -> MachineError {
        MachineError::RegisterError(err)
    }
}

impl From<MemoryError> for MachineError {
    fn from(err: MemoryError) -> (r: MachineError) {
        MachineError::MemoryError(err)
    }
}

impl vstd::std_specs::convert::FromSpecImpl<MemoryError> for MachineError {
    open spec fn obeys_from_spec() -> bool {
        true
    }

    open spec fn from_spec(err: MemoryError) -> MachineError {
        MachineError::MemoryError(err)
    }
}

/// Capacity of each port queue.
pub const PORT_SIZE: usize = 5;

/// Bytes of the wire payload: two register bytes and eight memory bytes.
pub const MACHINE_SIZE: usize = 10;

/// The execution budget: the most instructions one run may execute.
pub const MAX_CALLS: usize = 100;

/// Mathematical model of a machine: the register file, the sixteen
/// memory nibbles, the two port queues and the executed-instruction
/// counter.
#[verifier::ext_equal]
pub ghost struct MachineV {
    pub regs: RegistersV,
    pub mem: Seq<u8>,
    pub inp: Seq<u8>,
    pub outp: Seq<u8>,
    pub cc: nat,
}

impl MachineV {
    /// Registers, memory locations and port slots all hold 4-bit values,
    /// and both queues have exactly five slots.
    pub open spec fn inv(self) -> bool {
        &&& self.regs.inv()
        &&& mem_inv(self.mem)
        &&& self.inp.len() == PORT_SIZE
        &&& self.outp.len() == PORT_SIZE
        &&& forall|i: int| 0 <= i < PORT_SIZE ==> self.inp[i] <= MAX_VALUE
        &&& forall|i: int| 0 <= i < PORT_SIZE ==> self.outp[i] <= MAX_VALUE
    }
}

/// The initial input queue: seeded under the port-enabled profile,
/// empty (all zero) otherwise.
pub open spec fn seed_input(profile: Profile) -> Seq<u8> {
    if profile.ports_enabled() {
        seq![1u8, 2u8, 3u8, 4u8, 5u8]
    } else {
        seq![0u8, 0u8, 0u8, 0u8, 0u8]
    }
}

/// The machine built from a client payload: bytes 0 and 1 are the
/// register file, bytes 2 to 9 the memory; any further bytes are
/// ignored.  The counter starts at zero and the output queue empty.
pub open spec fn machine_of_payload(bytes: Seq<u8>, profile: Profile) -> MachineV {
    MachineV {
        regs: regs_of_bytes(bytes[0], bytes[1]),
        mem: nibbles_of_bytes(bytes.subrange(2, 10)),
        inp: seed_input(profile),
        outp: seq![0u8, 0u8, 0u8, 0u8, 0u8],
        cc: 0,
    }
}

/// The machine of a zeroed payload with empty ports.
pub open spec fn machine_zeroed() -> MachineV {
    MachineV {
        regs: regs_zeroed(),
        mem: nibbles_of_bytes(seq![0u8; 8]),
        inp: seq![0u8, 0u8, 0u8, 0u8, 0u8],
        outp: seq![0u8, 0u8, 0u8, 0u8, 0u8],
        cc: 0,
    }
}

#[derive(Debug)]
pub struct Machine {
    reg: Registers,
    mem: Memory,
    inp: [u8; PORT_SIZE],
    outp: [u8; PORT_SIZE],
    call_count: usize,
}

impl View for Machine {
    type V = MachineV;

    closed spec fn view(&self) -> MachineV {
        MachineV {
            regs: self.reg@,
            mem: self.mem@,
            inp: self.inp@,
            outp: self.outp@,
            cc: self.call_count as nat,
        }
    }
}

impl Default for Machine {
    /// A zeroed machine: zero registers, memory, ports and counter.
    fn default() -> (r: Self)
        ensures
            r@ == machine_zeroed(),
            r.wf(),
    {
        let r = Machine {
            reg: Registers::default(),
            mem: Memory::default(),
            inp: [0; PORT_SIZE],
            outp: [0; PORT_SIZE],
            call_count: 0,
        };
        proof {
            assert(seq![0u8; 8] =~= seq![0u8, 0u8, 0u8, 0u8, 0u8, 0u8, 0u8, 0u8]);
            assert(r.inp@ =~= seq![0u8, 0u8, 0u8, 0u8, 0u8]);
            assert(r@ =~= machine_zeroed());
        }
        r
    }
}

impl Machine {
    /// The machine's model satisfies its invariant.
    pub open spec fn wf(&self) -> bool {
        self@.inv()
    }

    /// Build a machine from a ten-byte payload with empty ports.
    pub fn from_bytes(slice: &[u8; MACHINE_SIZE]) -> (r: Machine)
        ensures
            r@ == machine_of_payload(slice@, Profile::Open),
            r.wf(),
    {
        Machine::from_payload_bytes(slice, Profile::Open)
    }

    /// Build a machine from a ten-byte payload, seeding the input queue
    /// as the profile demands.
    pub fn from_payload_bytes(slice: &[u8; MACHINE_SIZE], profile: Profile) -> (r: Machine)
        ensures
            r@ == machine_of_payload(slice@, profile),
            r.wf(),
    {
        let regb: [u8; 2] = [slice[0], slice[1]];
        let memb: [u8; 8] = [
            slice[2],
            slice[3],
            slice[4],
            slice[5],
            slice[6],
            slice[7],
            slice[8],
            slice[9],
        ];
        let inp: [u8; PORT_SIZE] = match profile {
            Profile::C => [1, 2, 3, 4, 5],
            _ => [0; PORT_SIZE],
        };
        let r = Machine {
            reg: Registers::from_bytes(&regb),
            mem: Memory::from_bytes(&memb),
            inp,
            outp: [0; PORT_SIZE],
            call_count: 0,
        };
        proof {
            assert(memb@ =~= slice@.subrange(2, 10));
            assert(r.inp@ =~= seed_input(profile));
            assert(r.outp@ =~= seq![0u8, 0u8, 0u8, 0u8, 0u8]);
            assert(r@ =~= machine_of_payload(slice@, profile));
        }
        r
    }

    /// Build a machine from the first ten bytes of a client payload;
    /// any further bytes are ignored.
    pub fn from_payload(bytes: &Vec<u8>, profile: Profile) -> (r: Machine)
        requires
            bytes@.len() >= MACHINE_SIZE,
        ensures
            r@ == machine_of_payload(bytes@, profile),
            r.wf(),
    {
        let slice: [u8; MACHINE_SIZE] = [
            bytes[0],
            bytes[1],
            bytes[2],
            bytes[3],
            bytes[4],
            bytes[5],
            bytes[6],
            bytes[7],
            bytes[8],
            bytes[9],
        ];
        let r = Machine::from_payload_bytes(&slice, profile);
        proof {
            assert(slice@.subrange(2, 10) =~= bytes@.subrange(2, 10));
            assert(r@ =~= machine_of_payload(bytes@, profile));
        }
        r
    }

    pub fn get_reg(&self) -> (r: &Registers)
        ensures
            r@ == self@.regs,
    {
        &self.reg
    }

    pub fn get_mem(&self) -> (r: &Memory)
        ensures
            r@ == self@.mem,
    {
        &self.mem
    }

    pub fn get_cc(&self) -> (r: usize)
        ensures
            r as nat == self@.cc,
    {
        self.call_count
    }

    pub fn get_mut_reg(&mut self) -> (r: &mut Registers)
        ensures
            (*r)@ == old(self)@.regs,
            final(self)@ == (MachineV { regs: (*final(r))@, ..old(self)@ }),
    {
        &mut self.reg
    }

    pub fn get_mut_mem(&mut self) -> (r: &mut Memory)
        ensures
            (*r)@ == old(self)@.mem,
            final(self)@ == (MachineV { mem: (*final(r))@, ..old(self)@ }),
    {
        &mut self.mem
    }

    pub fn get_inp(&self) -> (r: &[u8; PORT_SIZE])
        ensures
            r@ == self@.inp,
    {
        &self.inp
    }

    pub fn get_outp(&self) -> (r: &[u8; PORT_SIZE])
        ensures
            r@ == self@.outp,
    {
        &self.outp
    }

    pub fn get_mut_cc(&mut self) -> (r: &mut usize)
        ensures
            (*r) as nat == old(self)@.cc,
            final(self)@ == (MachineV { cc: (*final(r)) as nat, ..old(self)@ }),
    {
        &mut self.call_count
    }

    /// Replace the register file.
    pub fn set_reg(self, reg: Registers) -> (r: Self)
        ensures
            r@ == (MachineV { regs: reg@, ..self@ }),
    {
        Machine { reg, ..self }
    }

    /// Replace the memory.
    pub fn set_mem(self, mem: Memory) -> (r: Self)
        ensures
            r@ == (MachineV { mem: mem@, ..self@ }),
    {
        Machine { mem, ..self }
    }

    /// Replace the executed-instruction counter.
    pub fn set_cc(self, calls: usize) -> (r: Self)
        ensures
            r@ == (MachineV { cc: calls as nat, ..self@ }),
    {
        Machine { call_count: calls, ..self }
    }

    /// Pop the front of the input queue, shifting the rest forward and
    /// filling the freed slot with zero — an empty queue yields zero.
    pub fn pop_inp(&mut self) -> (r: u8)
        ensures
            r == old(self)@.inp[0],
            final(self)@ == (MachineV {
                inp: old(self)@.inp.subrange(1, 5).push(0),
                ..old(self)@
            }),
    {
        let val = self.inp[0];
        self.inp[0] = self.inp[1];
        self.inp[1] = self.inp[2];
        self.inp[2] = self.inp[3];
        self.inp[3] = self.inp[4];
        self.inp[4] = 0;
        proof {
            assert(final(self).inp@ =~= old(self)@.inp.subrange(1, 5).push(0));
            assert(final(self)@ =~= (MachineV {
                inp: old(self)@.inp.subrange(1, 5).push(0),
                ..old(self)@
            }));
        }
        val
    }

    /// Push a value onto the front of the output queue, discarding the
    /// oldest entry if the queue is full.
    pub fn push_outp(&mut self, val: u8)
        ensures
            final(self)@ == (MachineV {
                outp: seq![val] + old(self)@.outp.subrange(0, 4),
                ..old(self)@
            }),
    {
        self.outp[4] = self.outp[3];
        self.outp[3] = self.outp[2];
        self.outp[2] = self.outp[1];
        self.outp[1] = self.outp[0];
        self.outp[0] = val;
        proof {
            assert(final(self).outp@ =~= seq![val] + old(self)@.outp.subrange(0, 4));
            assert(final(self)@ =~= (MachineV {
                outp: seq![val] + old(self)@.outp.subrange(0, 4),
                ..old(self)@
            }));
        }
    }

    /// Run the fetch-execute loop to completion.  The machine ends in
    /// the state the `run` semantics give it; on a normal end (HLT or
    /// budget exhausted) the executed-instruction count is returned,
    /// on an execution failure the categorized error.
    #[verifier::rlimit(100)]
    #[verifier::spinoff_prover]
    pub fn exec(&mut self, profile: Profile) -> (r: MachineResult<usize>)
        requires
            old(self).wf(),
        ensures
            final(self).wf(),
            final(self)@ == run(old(self)@, profile).0,
            (match run(old(self)@, profile).1 {
                Ok(()) => r matches Ok(c) && c as nat == run(old(self)@, profile).0.cc,
                Err(e) => r == MachineResult::<usize>::Err(MachineError::InstructionError(e)),
            }),
            final(self)@.cc >= old(self)@.cc,
            old(self)@.cc <= MAX_CALLS ==> final(self)@.cc <= MAX_CALLS,
    {
        let ghost orig = self@;
        loop
            invariant
                orig == old(self)@,
                self.wf(),
                run(orig, profile) == run(self@, profile),
                self@.cc >= orig.cc,
                orig.cc <= MAX_CALLS ==> self@.cc <= MAX_CALLS,
            ensures
                orig == old(self)@,
                self.wf(),
                run(orig, profile) == run(self@, profile),
                self@.cc >= orig.cc,
                orig.cc <= MAX_CALLS ==> self@.cc <= MAX_CALLS,
                self@.regs.hf || self@.cc >= MAX_CALLS,
            decreases MAX_CALLS - self@.cc,
        {
            if self.reg.get_hf() || MAX_CALLS <= self.call_count {
                break ;
            }
            match self.exec_once(profile) {
                Ok(()) => {},
                Err(e) => {
                    return Err(e);
                },
            };
        }
        proof {
            assert(run(self@, profile) == (self@, InstructionResult::<()>::Ok(())));
        }
        Ok(self.call_count)
    }

    /// One iteration of the fetch-execute loop on a machine that is
    /// neither halted nor out of budget: fetch the word at IP, decode
    /// and execute it, and count the instruction.  `Ok` means the run
    /// goes on (a jump not taken included); an error is the categorized
    /// failure that ends the run, with HF forced and the instruction
    /// not counted.
    #[verifier::rlimit(100)]
    #[verifier::spinoff_prover]
    fn exec_once(&mut self, profile: Profile) -> (r: MachineResult<()>)
        requires
            old(self).wf(),
            !old(self)@.regs.hf,
            old(self)@.cc < MAX_CALLS,
        ensures
            final(self).wf(),
            (match r {
                Ok(()) => {
                    &&& run(old(self)@, profile) == run(final(self)@, profile)
                    &&& final(self)@.cc == old(self)@.cc + 1
                },
                Err(me) => {
                    &&& me matches MachineError::InstructionError(e)
                    &&& run(old(self)@, profile) == (
                        final(self)@,
                        InstructionResult::<()>::Err(e),
                    )
                    &&& final(self)@.cc == old(self)@.cc
                },
            }),
    {
        let ghost pre = self@;
        let inst = self.current_instruction();
        proof {
            assert(inst_wf(inst));
            lemma_run_unfold(pre, profile);
        }
        let ghost s = step(inst, pre, profile);
        let ghost mut next = MachineV { cc: s.0.cc + 1, ..s.0 };
        match inst.call(self, profile) {
            Ok(()) => {},
            // A conditional jump that fell through: counted, not an error.
            Err(InstructionError::JumpNotTaken) => {},
            Err(InstructionError::InvalidInstruction(i)) => {
                let reg = self.get_mut_reg();
                reg.set_hf(true);
                proof {
                    assert(self@ =~= (MachineV { regs: RegistersV { hf: true, ..s.0.regs }, ..s.0
                    }));
                    next = MachineV {
                        regs: RegistersV { hf: true, ..s.0.regs },
                        cc: s.0.cc + 1,
                        ..s.0
                    };
                }
                if !matches!(profile, Profile::A) {
                    return Err(MachineError::InstructionError(
                        InstructionError::InvalidInstruction(i),
                    ));
                }
            },
            Err(InstructionError::OutOfBounds(a)) => {
                let reg = self.get_mut_reg();
                reg.set_hf(true);
                proof {
                    assert(self@ =~= (MachineV { regs: RegistersV { hf: true, ..s.0.regs }, ..s.0
                    }));
                }
                return Err(MachineError::InstructionError(InstructionError::OutOfBounds(a)));
            },
            Err(InstructionError::ValueTooLarge(v)) => {
                let reg = self.get_mut_reg();
                reg.set_hf(true);
                proof {
                    assert(self@ =~= (MachineV { regs: RegistersV { hf: true, ..s.0.regs }, ..s.0
                    }));
                }
                return Err(MachineError::InstructionError(InstructionError::ValueTooLarge(v)));
            },
            Err(InstructionError::MathError(m)) => {
                let reg = self.get_mut_reg();
                reg.set_hf(true);
                proof {
                    assert(self@ =~= (MachineV { regs: RegistersV { hf: true, ..s.0.regs }, ..s.0
                    }));
                }
                return Err(MachineError::InstructionError(InstructionError::MathError(m)));
            },
        };
        self.call_count = self.call_count + 1;
        proof {
            assert(self@ =~= next);
            assert(run(pre, profile) == run(next, profile));
        }
        Ok(())
    }

    /// Fetch and decode the instruction word at IP.
    pub fn current_instruction(&self) -> (r: Instruction)
        requires
            self.wf(),
        ensures
            r == decode(word_at(self@.mem, self@.regs.ip as int)),
    {
        let ip = self.reg.get_ip();
        let inst = match self.mem.get_loc_u8(ip as usize) {
            Ok(word) => word,
            Err(_) => 0,  // unreachable: IP is a nibble, so always in bounds
        };
        Instruction::from(inst)
    }

    /// Read-only snapshot for a renderer: the instruction stream
    /// decoded from location 0 upward, each instruction followed by the
    /// next at the location past its width.
    pub fn disassemble(&self) -> (r: Vec<Instruction>)
        requires
            self.wf(),
        ensures
            r@ == spec_disassembly(self@.mem, 0),
    {
        let mut out: Vec<Instruction> = Vec::new();
        let mut loc: usize = 0;
        while loc < 16
            invariant
                self.wf(),
                loc <= 17,
                spec_disassembly(self@.mem, 0) == out@ + spec_disassembly(self@.mem, loc as int),
            decreases 17 - loc,
        {
            let word = match self.mem.get_loc_u8(loc) {
                Ok(w) => w,
                Err(_) => 0,  // unreachable: the loop stays below location 16
            };
            let inst = Instruction::from(word);
            let width = inst.size();
            let ghost before = out@;
            out.push(inst);
            proof {
                assert(spec_disassembly(self@.mem, loc as int) == seq![inst] + spec_disassembly(
                    self@.mem,
                    loc + spec_size(inst),
                ));
                assert(out@ + spec_disassembly(self@.mem, loc + spec_size(inst)) =~= before
                    + spec_disassembly(self@.mem, loc as int));
            }
            loc = loc + width as usize;
        }
        proof {
            assert(spec_disassembly(self@.mem, 0) =~= out@);
        }
        out
    }

    /// The acceptance predicate for a final machine state under a
    /// difficulty profile.
    pub fn is_valid(&self, profile: Profile) -> (r: bool)
        requires
            self.wf(),
        ensures
            r == valid_spec(self@, profile),
    {
        match profile {
            Profile::A => {
                let mem = self.mem.get_all();
                self.call_count < 10 && self.reg.get_ip() > 0x4 && self.reg.get_ip() < 0x8
                    && self.reg.get_ac() == 4 && mem[0] == 48 && mem[1] == 66 && mem[2] == 121
                    && mem[3] == 116 && mem[4] == 101 && mem[5] == 67 && mem[6] == 84
                    && mem[7] == 70
            },
            Profile::B => self.call_count < 100 && self.reg.get_ac() == 5,
            Profile::C => {
                let inp = self.get_inp();
                let outp = self.get_outp();
                self.call_count < 100 && self.call_count > 40 && inp[0] == 0 && inp[1] == 0
                    && inp[2] == 0 && inp[3] == 0 && inp[4] == 0 && outp[3] == 2 && outp[1] == 4
                    && outp[4] == 1 && outp[2] == 3 && outp[0] == 5
            },
            Profile::Open => true,
        }
    }
}

/// The instruction stream a renderer shows: decode the word at a
/// location, then continue at the location past that instruction's
/// width, until the sixteen locations are exhausted.
pub open spec fn spec_disassembly(mem: Seq<u8>, loc: int) -> Seq<Instruction>
    recommends
        mem_inv(mem),
        0 <= loc,
    decreases 17 - loc,
{
    if loc >= 16 {
        Seq::empty()
    } else {
        let inst = decode(word_at(mem, loc));
        seq![inst] + spec_disassembly(mem, loc + spec_size(inst))
    }
}

/// The fetch-execute loop as a recursion over machine models.  While HF
/// is clear and the counter is below the budget: fetch the word at IP,
/// decode and execute it, count the instruction (a jump not taken is
/// counted too) and continue.  An invalid instruction forces HF and —
/// except under the profile that suppresses it — stops the run with the
/// error; any other execution failure forces HF and stops the run.  The
/// run ends normally when HF is set or the budget is spent.
pub open spec fn run(m: MachineV, profile: Profile) -> (MachineV, InstructionResult<()>)
    recommends
        m.inv(),
    decreases MAX_CALLS - m.cc,
{
    if m.regs.hf || m.cc >= MAX_CALLS {
        (m, Ok(()))
    } else {
        let inst = decode(word_at(m.mem, m.regs.ip as int));
        let s = step(inst, m, profile);
        match s.1 {
            Ok(()) => run(MachineV { cc: s.0.cc + 1, ..s.0 }, profile),
            Err(InstructionError::JumpNotTaken) => run(
                MachineV { cc: s.0.cc + 1, ..s.0 },
                profile,
            ),
            Err(InstructionError::InvalidInstruction(i)) => {
                let halted = MachineV { regs: RegistersV { hf: true, ..s.0.regs }, ..s.0 };
                if profile.suppresses_invalid() {
                    run(MachineV { cc: halted.cc + 1, ..halted }, profile)
                } else {
                    (halted, Err(InstructionError::InvalidInstruction(i)))
                }
            },
            Err(e) => (MachineV { regs: RegistersV { hf: true, ..s.0.regs }, ..s.0 }, Err(e)),
        }
    }
}

/// One unfolding of `run` on a machine that is neither halted nor out
/// of budget: the run continues after the decoded instruction's step,
/// as the outcome of that step directs.
pub proof fn lemma_run_unfold(m: MachineV, profile: Profile)
    requires
        !m.regs.hf,
        m.cc < MAX_CALLS,
    ensures
        ({
            let inst = decode(word_at(m.mem, m.regs.ip as int));
            let s = step(inst, m, profile);
            run(m, profile) == match s.1 {
                Ok(()) => run(MachineV { cc: s.0.cc + 1, ..s.0 }, profile),
                Err(InstructionError::JumpNotTaken) => run(
                    MachineV { cc: s.0.cc + 1, ..s.0 },
                    profile,
                ),
                Err(InstructionError::InvalidInstruction(i)) => {
                    let halted = MachineV { regs: RegistersV { hf: true, ..s.0.regs }, ..s.0 };
                    if profile.suppresses_invalid() {
                        run(MachineV { cc: halted.cc + 1, ..halted }, profile)
                    } else {
                        (halted, Err(InstructionError::InvalidInstruction(i)))
                    }
                },
                Err(e) => (
                    MachineV { regs: RegistersV { hf: true, ..s.0.regs }, ..s.0 },
                    Err(e),
                ),
            }
        }),
{
}

/// The termination guarantee of the budgeted loop: a run never leaves
/// the counter above the budget, and never lowers it, whatever the
/// program — so no run executes more than the budget of instructions.
pub proof fn lemma_run_bounded(m: MachineV, profile: Profile)
    requires
        m.cc <= MAX_CALLS,
    ensures
        m.cc <= run(m, profile).0.cc,
        run(m, profile).0.cc <= MAX_CALLS,
    decreases MAX_CALLS - m.cc,
{
    if m.regs.hf || m.cc >= MAX_CALLS {
    } else {
        let inst = decode(word_at(m.mem, m.regs.ip as int));
        let s = step(inst, m, profile);
        assert(s.0.cc == m.cc);
        match s.1 {
            Ok(()) => lemma_run_bounded(MachineV { cc: s.0.cc + 1, ..s.0 }, profile),
            Err(InstructionError::JumpNotTaken) => lemma_run_bounded(
                MachineV { cc: s.0.cc + 1, ..s.0 },
                profile,
            ),
            Err(InstructionError::InvalidInstruction(_)) => {
                let halted = MachineV { regs: RegistersV { hf: true, ..s.0.regs }, ..s.0 };
                if profile.suppresses_invalid() {
                    lemma_run_bounded(MachineV { cc: halted.cc + 1, ..halted }, profile);
                }
            },
            Err(_) => {},
        }
    }
}

/// The acceptance predicate: a pure function of the final machine model
/// and the profile.  Profile A wants a small counter, an IP inside a
/// narrow window, a specific AC and specific leading memory bytes;
/// profile B a counter ceiling and a specific AC; profile C a counter
/// floor and ceiling and exact contents of both port queues; no profile
/// accepts everything.
pub open spec fn valid_spec(m: MachineV, profile: Profile) -> bool {
    match profile {
        Profile::A => {
            &&& m.cc < 10
            &&& m.regs.ip > 4
            &&& m.regs.ip < 8
            &&& m.regs.ac == 4
            &&& byte_of_nibbles(m.mem, 0) == 48
            &&& byte_of_nibbles(m.mem, 1) == 66
            &&& byte_of_nibbles(m.mem, 2) == 121
            &&& byte_of_nibbles(m.mem, 3) == 116
            &&& byte_of_nibbles(m.mem, 4) == 101
            &&& byte_of_nibbles(m.mem, 5) == 67
            &&& byte_of_nibbles(m.mem, 6) == 84
            &&& byte_of_nibbles(m.mem, 7) == 70
        },
        Profile::B => m.cc < 100 && m.regs.ac == 5,
        Profile::C => {
            &&& m.cc < 100
            &&& m.cc > 40
            &&& m.inp =~= seq![0u8, 0u8, 0u8, 0u8, 0u8]
            &&& m.outp =~= seq![5u8, 4u8, 3u8, 2u8, 1u8]
        },
        Profile::Open => true,
    }
}

} // verus!
