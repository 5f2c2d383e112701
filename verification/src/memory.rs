//! Bit-packed memory.
//!
//! Eight bytes hold sixteen 4-bit "locations": location `n` lives in
//! byte `n/2`, even locations in the high nibble and odd ones in the
//! low nibble.  A second addressing mode reads a whole instruction word
//! at a location: the nibble there followed by the nibble at the next
//! location, wrapping from location 15 back to location 0.

use vstd::prelude::*;

verus! {

use vstd::string::StringExecFns;

use crate::MAX_VALUE;

pub type MemoryResult<M> = Result<M, MemoryError>;

#[derive(Clone, Copy, Debug, PartialEq, Eq, Structural)]
pub enum MemoryError {
    OutOfBounds(usize),
    ValueTooLarge(u8),
    MathError(usize),
}

/// The text describing a memory failure.
pub open spec fn memory_error_text(e: MemoryError) -> Seq<char> {
    "Memory Error: "@ + match e {
        MemoryError::OutOfBounds(v) => "Address requested is out of bounds: "@
            + crate::text::spec_hex_upper(v as nat),
        MemoryError::ValueTooLarge(v) => "Value provided is above 4 bits: "@
            + crate::text::spec_hex_upper(v as nat),
        MemoryError::MathError(v) => "Invalid math operation: "@ + crate::text::spec_hex_upper(
            v as nat,
        ),
    }
}

impl MemoryError {
    /// Render the failure description.
    pub fn describe(&self) -> (s: String)
        ensures
            s@ == memory_error_text(*self),
    {
        let mut s = "Memory Error: ".to_owned();
        match *self {
            MemoryError::OutOfBounds(v) => {
                s.append("Address requested is out of bounds: ");
                let d = crate::text::hex_string_upper(v);
                s.append(d.as_str());
            },
            MemoryError::ValueTooLarge(v) => {
                s.append("Value provided is above 4 bits: ");
                let d = crate::text::hex_string_upper(v as usize);
                s.append(d.as_str());
            },
            MemoryError::MathError(v) => {
                s.append("Invalid math operation: ");
                let d = crate::text::hex_string_upper(v);
                s.append(d.as_str());
            },
        };
        proof {
            assert(s@ =~= memory_error_text(*self));
        }
        s
    }
}

/// Number of bytes backing the memory.
pub const MEMORY_SIZE: usize = 8;

/// Number of addressable 4-bit locations.
pub const MEMORY_LOCATIONS: usize = 16;

/// The sixteen 4-bit locations packed into eight bytes: even locations
/// are high nibbles, odd locations low nibbles.
pub open spec fn nibbles_of_bytes(bytes: Seq<u8>) -> Seq<u8> {
    Seq::new(
        16,
        |i: int|
            if i % 2 == 0 {
                (bytes[i / 2] / 16) as u8
            } else {
                (bytes[i / 2] % 16) as u8
            },
    )
}

/// The byte at index `j` of the wire image of a nibble sequence.
pub open spec fn byte_of_nibbles(mem: Seq<u8>, j: int) -> u8 {
    (mem[2 * j] * 16 + mem[2 * j + 1]) as u8
}

/// The instruction word fetched at location `off`: the nibble there as
/// the high half and the nibble at the following location (wrapping at
/// the 16-location boundary) as the low half.
pub open spec fn word_at(mem: Seq<u8>, off: int) -> u8 {
    (mem[off] * 16 + mem[(off + 1) % 16]) as u8
}

/// A nibble sequence is a well-formed memory image: sixteen locations,
/// each a 4-bit value.
pub open spec fn mem_inv(mem: Seq<u8>) -> bool {
    mem.len() == 16 && forall|i: int| 0 <= i < 16 ==> mem[i] <= MAX_VALUE
}

pub broadcast proof fn lemma_nibbles_of_bytes_inv(bytes: Seq<u8>)
    requires
        bytes.len() == 8,
    ensures
        #[trigger] mem_inv(nibbles_of_bytes(bytes)),
{
    assert forall|i: int| 0 <= i < 16 implies nibbles_of_bytes(bytes)[i] <= MAX_VALUE by {
        assert(bytes[i / 2] / 16 <= 15);
        assert(bytes[i / 2] % 16 <= 15);
    }
}

#[derive(Clone, Debug, PartialEq, Eq)]
pub struct Memory {
    inner: [u8; MEMORY_SIZE],
}

impl View for Memory {
    type V = Seq<u8>;

    closed spec fn view(&self) -> Seq<u8> {
        nibbles_of_bytes(self.inner@)
    }
}

impl Default for Memory {
    /// A zeroed memory.
    fn default() -> (r: Self)
        ensures
            r@ == nibbles_of_bytes(seq![0u8; 8]),
            r.wf(),
    {
        let r = Memory { inner: [0; MEMORY_SIZE] };
        proof {
            assert(r.inner@ =~= seq![0u8; 8]);
            lemma_nibbles_of_bytes_inv(r.inner@);
        }
        r
    }
}

impl From<[u8; MEMORY_SIZE]> for Memory {
    /// Wrap an eight-byte wire image.
    fn from(mem: [u8; MEMORY_SIZE]) -> (r: Self) {
        Memory { inner: mem }
    }
}

impl vstd::std_specs::convert::FromSpecImpl<[u8; MEMORY_SIZE]> for Memory {
    open spec fn obeys_from_spec() -> bool {
        true
    }

    closed spec fn from_spec(mem: [u8; MEMORY_SIZE]) -> Memory {
        Memory { inner: mem }
    }
}

impl Memory {
    /// The memory image is well formed: sixteen 4-bit locations.
    pub open spec fn wf(&self) -> bool {
        mem_inv(self@)
    }

    /// Build a memory from its eight-byte wire image.
    pub fn from_bytes(mem: &[u8; MEMORY_SIZE]) -> (r: Self)
        ensures
            r@ == nibbles_of_bytes(mem@),
            r.wf(),
    {
        let r = Memory { inner: *mem };
        proof {
            lemma_nibbles_of_bytes_inv(mem@);
        }
        r
    }

    /// The raw eight-byte wire image.
    pub fn get_all(&self) -> (r: &[u8; MEMORY_SIZE])
        ensures
            forall|j: int| 0 <= j < 8 ==> r@[j] == byte_of_nibbles(self@, j),
    {
        proof {
            assert forall|j: int| 0 <= j < 8 implies self.inner@[j] == byte_of_nibbles(
                self@,
                j,
            ) by {
                let b = self.inner@[j];
                assert(self@[2 * j] == b / 16);
                assert(self@[2 * j + 1] == b % 16);
            }
        }
        &self.inner
    }

    /// Replace the whole memory with a new eight-byte image.
    pub fn set_all(self, memory: [u8; MEMORY_SIZE]) -> (r: Self)
        ensures
            r@ == nibbles_of_bytes(memory@),
            r.wf(),
    {
        Memory::from_bytes(&memory)
    }

    /// Read the 4-bit value at a location; a location outside the
    /// sixteen is out of bounds.
    pub fn get_loc(&self, offset: usize) -> (r: MemoryResult<u8>)
        ensures
            offset < 16 ==> r == MemoryResult::<u8>::Ok(self@[offset as int]),
            offset >= 16 ==> r == MemoryResult::<u8>::Err(MemoryError::OutOfBounds(offset)),
    {
        let loc = offset / 2;
        if MEMORY_SIZE <= loc {
            return Err(MemoryError::OutOfBounds(offset));
        }
        let val: u8 = self.inner[loc];
        if offset % 2 == 0 {
            Ok(val / 16)
        } else {
            Ok(val % 16)
        }
    }

    /// Read the instruction word that starts at a location: its own
    /// nibble above the nibble of the following location, wrapping from
    /// location 15 to location 0.
    pub fn get_loc_u8(&self, offset: usize) -> (r: MemoryResult<u8>)
        requires
            self.wf(),
        ensures
            offset < 16 ==> r == MemoryResult::<u8>::Ok(word_at(self@, offset as int)),
            offset >= 16 ==> r == MemoryResult::<u8>::Err(MemoryError::OutOfBounds(offset)),
    {
        if MEMORY_SIZE <= offset / 2 {
            return Err(MemoryError::OutOfBounds(offset));
        }
        if offset % 2 == 0 {
            // An even location starts a byte, so the word is that byte.
            let b = self.inner[offset / 2];
            proof {
                assert(self@[offset as int] == b / 16);
                assert(self@[offset as int + 1] == b % 16);
                assert((b / 16) * 16 + b % 16 == b);
            }
            Ok(b)
        } else {
            let hi = self.inner[offset / 2] % 16;
            let lo = if offset == 15 {
                self.inner[0] / 16
            } else {
                self.inner[offset / 2 + 1] / 16
            };
            Ok(hi * 16 + lo)
        }
    }

    /// Write a 4-bit value to a location, touching only that half-byte.
    /// A location outside the sixteen is out of bounds; a value above
    /// 15 is refused without mutating memory.
    pub fn set_loc(&mut self, offset: usize, value: u8) -> (r: MemoryResult<()>)
        ensures
            offset < 16 && value <= MAX_VALUE ==> r == MemoryResult::<()>::Ok(())
                && final(self)@ == old(self)@.update(offset as int, value),
            offset >= 16 ==> r == MemoryResult::<()>::Err(MemoryError::OutOfBounds(offset))
                && final(self)@ == old(self)@,
            offset < 16 && value > MAX_VALUE ==> r == MemoryResult::<()>::Err(
                MemoryError::ValueTooLarge(value),
            ) && final(self)@ == old(self)@,
    {
        let loc = offset / 2;
        if MEMORY_SIZE <= loc {
            return Err(MemoryError::OutOfBounds(offset));
        }
        if MAX_VALUE < value {
            return Err(MemoryError::ValueTooLarge(value));
        }
        let val: u8 = self.inner[loc];
        let updated: u8 = if offset % 2 == 0 {
            value * 16 + val % 16
        } else {
            (val / 16) * 16 + value
        };
        self.inner[loc] = updated;
        proof {
            assert(final(self)@ =~= old(self)@.update(offset as int, value)) by {
                assert forall|i: int| 0 <= i < 16 implies final(self)@[i] == old(self)@.update(
                    offset as int,
                    value,
                )[i] by {
                    let ob = old(self).inner@[i / 2];
                    if i / 2 == loc {
                        if offset % 2 == 0 {
                            assert((value * 16 + ob % 16) / 16 == value);
                            assert((value * 16 + ob % 16) % 16 == ob % 16);
                        } else {
                            assert(((ob / 16) * 16 + value) / 16 == ob / 16);
                            assert(((ob / 16) * 16 + value) % 16 == value);
                        }
                    }
                }
            }
        }
        Ok(())
    }
}

/// Round-trip law for a single location: after a 4-bit write the same
/// location reads the written value and every other location is
/// untouched.  (That a write of a larger value fails with the memory
/// unchanged is part of `Memory::set_loc`'s contract.)
pub proof fn lemma_nibble_round_trip(mem: Seq<u8>, offset: int, value: u8)
    requires
        mem_inv(mem),
        0 <= offset < 16,
        value <= MAX_VALUE,
    ensures
        mem.update(offset, value)[offset] == value,
        forall|i: int| 0 <= i < 16 && i != offset ==> mem.update(offset, value)[i] == mem[i],
{
}

/// The instruction word at a location is exactly the nibble there above
/// the nibble at the next location, with wraparound at the 16-location
/// boundary.
pub proof fn lemma_word_of_nibbles(mem: Seq<u8>, offset: int)
    requires
        mem_inv(mem),
        0 <= offset < 16,
    ensures
        word_at(mem, offset) == mem[offset] * 16 + mem[(offset + 1) % 16],
        word_at(mem, offset) / 16 == mem[offset],
        word_at(mem, offset) % 16 == mem[(offset + 1) % 16],
{
    assert(mem[offset] * 16 + mem[(offset + 1) % 16] <= 255);
    assert((mem[offset] * 16 + mem[(offset + 1) % 16]) / 16 == mem[offset]);
    assert((mem[offset] * 16 + mem[(offset + 1) % 16]) % 16 == mem[(offset + 1) % 16]);
}

} // verus!
