//! The bit-packed register file.
//!
//! Four 4-bit registers — instruction pointer (IP), loop index (LI),
//! flags (FR) and accumulator (AC) — with four named single-bit views
//! into FR: carry (bit 0), zero (bit 1), overflow (bit 2) and halt
//! (bit 3).  On the wire the file is two bytes: byte 0 is IP in the high
//! nibble and LI in the low nibble, byte 1 is FR in the high nibble and
//! AC in the low nibble.

use vstd::prelude::*;

verus! {

use vstd::string::StringExecFns;

use crate::MAX_VALUE;

/// Bytes of the register file's wire encoding.
pub const REGISTER_SIZE: usize = 2;

pub type RegisterResult<T> = Result<T, RegisterError>;

#[derive(Clone, Copy, Debug, PartialEq, Eq, Structural)]
pub enum RegisterError {
    ValueTooLarge(u8),
    MathError(usize),
}

/// The text describing a register failure.
pub open spec fn register_error_text(e: RegisterError) -> Seq<char> {
    "Register Error: "@ + match e {
        RegisterError::ValueTooLarge(v) => "Value too large for register: "@ + crate::text::spec_decimal(v as nat),
        RegisterError::MathError(v) => "Math error from: "@ + crate::text::spec_decimal(v as nat),
    }
}

impl RegisterError {
    /// Render the failure description.
    pub fn describe(&self) -> (s: String)
        ensures
            s@ == register_error_text(*self),
    {
        let mut s = "Register Error: ".to_owned();
        match *self {
            RegisterError::ValueTooLarge(v) => {
                s.append("Value too large for register: ");
                let d = crate::text::decimal_string(v as usize);
                s.append(d.as_str());
            },
            RegisterError::MathError(v) => {
                s.append("Math error from: ");
                let d = crate::text::decimal_string(v);
                s.append(d.as_str());
            },
        };
        proof {
            assert(s@ =~= register_error_text(*self));
        }
        s
    }
}

/// Mathematical model of the register file: the three value registers
/// and the four flag bits of FR.
pub ghost struct RegistersV {
    pub ip: u8,
    pub li: u8,
    pub ac: u8,
    pub cf: bool,
    pub zf: bool,
    pub of: bool,
    pub hf: bool,
}

impl RegistersV {
    /// Every register value fits in four bits.
    pub open spec fn inv(self) -> bool {
        self.ip <= MAX_VALUE && self.li <= MAX_VALUE && self.ac <= MAX_VALUE
    }

    /// The FR register as a nibble: CF is bit 0, ZF bit 1, OF bit 2,
    /// HF bit 3.
    pub open spec fn fr(self) -> u8 {
        ((if self.cf { 1int } else { 0int }) + (if self.zf { 2int } else { 0int })
            + (if self.of { 4int } else { 0int }) + (if self.hf { 8int } else { 0int })) as u8
    }
}

/// Successor of a register value in the 4-bit domain: 15 wraps to 0.
pub open spec fn wrap_inc(v: u8) -> u8 {
    if v == MAX_VALUE {
        0
    } else {
        (v + 1) as u8
    }
}

/// Predecessor of a register value in the 4-bit domain: 0 wraps to 15.
pub open spec fn wrap_dec(v: u8) -> u8 {
    if v == 0 {
        MAX_VALUE
    } else {
        (v - 1) as u8
    }
}

/// The register file decoded from its two wire bytes.
pub open spec fn regs_of_bytes(b0: u8, b1: u8) -> RegistersV {
    RegistersV {
        ip: (b0 / 16) as u8,
        li: (b0 % 16) as u8,
        ac: (b1 % 16) as u8,
        cf: (b1 / 16) % 2 == 1,
        zf: (b1 / 32) % 2 == 1,
        of: (b1 / 64) % 2 == 1,
        hf: (b1 / 128) % 2 == 1,
    }
}

/// The first wire byte of a register file: IP packed above LI.
pub open spec fn byte0_of_regs(r: RegistersV) -> u8 {
    (r.ip * 16 + r.li) as u8
}

/// The second wire byte of a register file: FR packed above AC.
pub open spec fn byte1_of_regs(r: RegistersV) -> u8 {
    (r.fr() * 16 + r.ac) as u8
}

/// The register file of a freshly created machine: all registers and
/// flags zero.
pub open spec fn regs_zeroed() -> RegistersV {
    RegistersV { ip: 0, li: 0, ac: 0, cf: false, zf: false, of: false, hf: false }
}

#[derive(Clone, Debug, PartialEq, Eq, Structural)]
pub struct Registers {
    inst_ptr: u8,
    loop_idx: u8,
    accumulator: u8,
    carry: bool,
    zero: bool,
    overflow: bool,
    halt: bool,
}

impl View for Registers {
    type V = RegistersV;

    closed spec fn view(&self) -> RegistersV {
        RegistersV {
            ip: self.inst_ptr,
            li: self.loop_idx,
            ac: self.accumulator,
            cf: self.carry,
            zf: self.zero,
            of: self.overflow,
            hf: self.halt,
        }
    }
}

impl Default for Registers {
    /// A zeroed register file.
    fn default() -> (r: Self)
        ensures
            r@ == regs_zeroed(),
    {
        Registers {
            inst_ptr: 0,
            loop_idx: 0,
            accumulator: 0,
            carry: false,
            zero: false,
            overflow: false,
            halt: false,
        }
    }
}

impl From<[u8; REGISTER_SIZE]> for Registers {
    /// Decode a register file from its two wire bytes.
    fn from(slice: [u8; REGISTER_SIZE]) -> (r: Registers) {
        Registers::from_bytes(&slice)
    }
}

impl vstd::std_specs::convert::FromSpecImpl<[u8; REGISTER_SIZE]> for Registers {
    open spec fn obeys_from_spec() -> bool {
        true
    }

    closed spec fn from_spec(slice: [u8; REGISTER_SIZE]) -> Registers {
        Registers {
            inst_ptr: (slice@[0] / 16) as u8,
            loop_idx: (slice@[0] % 16) as u8,
            accumulator: (slice@[1] % 16) as u8,
            carry: (slice@[1] / 16) % 2 == 1,
            zero: (slice@[1] / 32) % 2 == 1,
            overflow: (slice@[1] / 64) % 2 == 1,
            halt: (slice@[1] / 128) % 2 == 1,
        }
    }
}

impl Registers {
    /// Every register of the file fits in four bits.
    pub open spec fn wf(&self) -> bool {
        self@.inv()
    }

    /// Decode a register file from its two wire bytes.
    pub fn from_bytes(slice: &[u8; 2]) -> (r: Registers)
        ensures
            r@ == regs_of_bytes(slice@[0], slice@[1]),
            r.wf(),
    {
        let b0 = slice[0];
        let b1 = slice[1];
        Registers {
            inst_ptr: b0 / 16,
            loop_idx: b0 % 16,
            accumulator: b1 % 16,
            carry: (b1 / 16) % 2 == 1,
            zero: (b1 / 32) % 2 == 1,
            overflow: (b1 / 64) % 2 == 1,
            halt: (b1 / 128) % 2 == 1,
        }
    }

    /// Encode the register file into its two wire bytes.
    pub fn to_bytes(&self) -> (r: [u8; 2])
        requires
            self.wf(),
        ensures
            r@ == seq![byte0_of_regs(self@), byte1_of_regs(self@)],
    {
        let fr = self.get_fr();
        let r = [self.inst_ptr * 16 + self.loop_idx, fr * 16 + self.accumulator];
        proof {
            assert(r@ =~= seq![byte0_of_regs(self@), byte1_of_regs(self@)]);
        }
        r
    }

    pub fn get_ip(&self) -> (r: u8)
        ensures
            r == self@.ip,
    {
        self.inst_ptr
    }

    pub fn get_li(&self) -> (r: u8)
        ensures
            r == self@.li,
    {
        self.loop_idx
    }

    pub fn get_fr(&self) -> (r: u8)
        ensures
            r == self@.fr(),
    {
        (if self.carry {
            1u8
        } else {
            0u8
        }) + (if self.zero {
            2u8
        } else {
            0u8
        }) + (if self.overflow {
            4u8
        } else {
            0u8
        }) + (if self.halt {
            8u8
        } else {
            0u8
        })
    }

    pub fn get_ac(&self) -> (r: u8)
        ensures
            r == self@.ac,
    {
        self.accumulator
    }

    /// Set IP, refusing a value that does not fit in four bits.  Flags
    /// are untouched.
    pub fn set_ip(&mut self, ip: u8) -> (r: RegisterResult<()>)
        ensures
            ip <= MAX_VALUE ==> r == RegisterResult::<()>::Ok(()) && final(self)@ == (
            RegistersV { ip, ..old(self)@ }),
            ip > MAX_VALUE ==> r == RegisterResult::<()>::Err(RegisterError::ValueTooLarge(ip))
                && final(self)@ == old(self)@,
    {
        if MAX_VALUE < ip {
            return Err(RegisterError::ValueTooLarge(ip));
        }
        self.inst_ptr = ip;
        Ok(())
    }

    /// Set LI, refusing a value that does not fit in four bits.  ZF is
    /// recomputed from the new value.
    pub fn set_li(&mut self, li: u8) -> (r: RegisterResult<()>)
        ensures
            li <= MAX_VALUE ==> r == RegisterResult::<()>::Ok(()) && final(self)@ == (
            RegistersV { li, zf: li == 0, ..old(self)@ }),
            li > MAX_VALUE ==> r == RegisterResult::<()>::Err(RegisterError::ValueTooLarge(li))
                && final(self)@ == old(self)@,
    {
        if MAX_VALUE < li {
            return Err(RegisterError::ValueTooLarge(li));
        }
        self.loop_idx = li;
        self.zero = li == 0;
        Ok(())
    }

    /// Set FR as a whole nibble, refusing a value that does not fit in
    /// four bits.
    pub fn set_fr(&mut self, fr: u8) -> (r: RegisterResult<()>)
        ensures
            fr <= MAX_VALUE ==> r == RegisterResult::<()>::Ok(()) && final(self)@ == (
            RegistersV {
                cf: fr % 2 == 1,
                zf: (fr / 2) % 2 == 1,
                of: (fr / 4) % 2 == 1,
                hf: (fr / 8) % 2 == 1,
                ..old(self)@
            }),
            fr > MAX_VALUE ==> r == RegisterResult::<()>::Err(RegisterError::ValueTooLarge(fr))
                && final(self)@ == old(self)@,
    {
        if MAX_VALUE < fr {
            return Err(RegisterError::ValueTooLarge(fr));
        }
        self.carry = fr % 2 == 1;
        self.zero = (fr / 2) % 2 == 1;
        self.overflow = (fr / 4) % 2 == 1;
        self.halt = (fr / 8) % 2 == 1;
        Ok(())
    }

    /// Set AC, refusing a value that does not fit in four bits.  ZF is
    /// recomputed from the new value.
    pub fn set_ac(&mut self, ac: u8) -> (r: RegisterResult<()>)
        ensures
            ac <= MAX_VALUE ==> r == RegisterResult::<()>::Ok(()) && final(self)@ == (
            RegistersV { ac, zf: ac == 0, ..old(self)@ }),
            ac > MAX_VALUE ==> r == RegisterResult::<()>::Err(RegisterError::ValueTooLarge(ac))
                && final(self)@ == old(self)@,
    {
        if MAX_VALUE < ac {
            return Err(RegisterError::ValueTooLarge(ac));
        }
        self.accumulator = ac;
        self.zero = ac == 0;
        Ok(())
    }

    /// Increment IP, wrapping 15 to 0.  No flag is touched.
    pub fn inc_ip(&mut self)
        requires
            old(self).wf(),
        ensures
            final(self)@ == (RegistersV { ip: wrap_inc(old(self)@.ip), ..old(self)@ }),
    {
        match self.inst_ptr {
            15u8 => self.inst_ptr = 0,
            _ => self.inst_ptr = self.inst_ptr + 1,
        };
    }

    /// Decrement IP, wrapping 0 to 15.  No flag is touched.
    pub fn dec_ip(&mut self)
        requires
            old(self).wf(),
        ensures
            final(self)@ == (RegistersV { ip: wrap_dec(old(self)@.ip), ..old(self)@ }),
    {
        match self.inst_ptr {
            0u8 => self.inst_ptr = 15,
            _ => self.inst_ptr = self.inst_ptr - 1,
        };
    }

    /// Increment LI, wrapping 15 to 0; ZF is recomputed.
    pub fn inc_li(&mut self)
        requires
            old(self).wf(),
        ensures
            final(self)@ == (RegistersV {
                li: wrap_inc(old(self)@.li),
                zf: wrap_inc(old(self)@.li) == 0,
                ..old(self)@
            }),
    {
        match self.loop_idx {
            15u8 => self.loop_idx = 0,
            _ => self.loop_idx = self.loop_idx + 1,
        };
        self.zero = self.loop_idx == 0;
    }

    /// Decrement LI, wrapping 0 to 15; ZF is recomputed.
    pub fn dec_li(&mut self)
        requires
            old(self).wf(),
        ensures
            final(self)@ == (RegistersV {
                li: wrap_dec(old(self)@.li),
                zf: wrap_dec(old(self)@.li) == 0,
                ..old(self)@
            }),
    {
        match self.loop_idx {
            0u8 => self.loop_idx = 15,
            _ => self.loop_idx = self.loop_idx - 1,
        };
        self.zero = self.loop_idx == 0;
    }

    /// Increment AC, wrapping 15 to 0; ZF is recomputed.
    pub fn inc_ac(&mut self)
        requires
            old(self).wf(),
        ensures
            final(self)@ == (RegistersV {
                ac: wrap_inc(old(self)@.ac),
                zf: wrap_inc(old(self)@.ac) == 0,
                ..old(self)@
            }),
    {
        match self.accumulator {
            15u8 => self.accumulator = 0,
            _ => self.accumulator = self.accumulator + 1,
        };
        self.zero = self.accumulator == 0;
    }

    /// Decrement AC, wrapping 0 to 15; ZF is recomputed.
    pub fn dec_ac(&mut self)
        requires
            old(self).wf(),
        ensures
            final(self)@ == (RegistersV {
                ac: wrap_dec(old(self)@.ac),
                zf: wrap_dec(old(self)@.ac) == 0,
                ..old(self)@
            }),
    {
        match self.accumulator {
            0u8 => self.accumulator = 15,
            _ => self.accumulator = self.accumulator - 1,
        };
        self.zero = self.accumulator == 0;
    }

    pub fn set_cf(&mut self, bit: bool)
        ensures
            final(self)@ == (RegistersV { cf: bit, ..old(self)@ }),
    {
        self.carry = bit;
    }

    pub fn set_zf(&mut self, bit: bool)
        ensures
            final(self)@ == (RegistersV { zf: bit, ..old(self)@ }),
    {
        self.zero = bit;
    }

    pub fn set_of(&mut self, bit: bool)
        ensures
            final(self)@ == (RegistersV { of: bit, ..old(self)@ }),
    {
        self.overflow = bit;
    }

    pub fn set_hf(&mut self, bit: bool)
        ensures
            final(self)@ == (RegistersV { hf: bit, ..old(self)@ }),
    {
        self.halt = bit;
    }

    pub fn get_cf(&self) -> (r: bool)
        ensures
            r == self@.cf,
    {
        self.carry
    }

    pub fn get_zf(&self) -> (r: bool)
        ensures
            r == self@.zf,
    {
        self.zero
    }

    pub fn get_of(&self) -> (r: bool)
        ensures
            r == self@.of,
    {
        self.overflow
    }

    pub fn get_hf(&self) -> (r: bool)
        ensures
            r == self@.hf,
    {
        self.halt
    }
}

/// Round-trip law for the wire encoding: decoding the two bytes of any
/// well-formed register file gives the file back, and encoding the
/// decode of any two bytes gives the bytes back.
pub proof fn lemma_register_codec_round_trip(r: RegistersV, b0: u8, b1: u8)
    requires
        r.inv(),
    ensures
        regs_of_bytes(byte0_of_regs(r), byte1_of_regs(r)) == r,
        byte0_of_regs(regs_of_bytes(b0, b1)) == b0,
        byte1_of_regs(regs_of_bytes(b0, b1)) == b1,
{
}

/// Increment and decrement wrap at the 4-bit boundary: the successor of
/// any register value is its value plus one modulo 16, so incrementing
/// 15 yields 0, and decrementing 0 yields 15.
pub proof fn lemma_wrap_at_boundary(v: u8)
    requires
        v <= MAX_VALUE,
    ensures
        wrap_inc(v) == (v + 1) % 16,
        wrap_dec(v) == (v + 15) % 16,
        wrap_inc(15) == 0,
        wrap_dec(0) == 15,
{
}

} // verus!
