//! A byte-addressable physical bus: one RAM region and a halt device that
//! latches an exit code.

use vstd::prelude::*;

verus! {

/// The bus refused an access.
#[derive(PartialEq, Eq, Structural, Debug, Clone, Copy)]
pub enum BusError {
    AccessFault,
}

pub type BusResult<T> = Result<T, BusError>;

/// Little-endian value of two bytes.
pub open spec fn le16(b0: u8, b1: u8) -> u16 {
    (b0 as u16) | ((b1 as u16) << 8u16)
}

/// Little-endian value of four bytes.
pub open spec fn le32(b0: u8, b1: u8, b2: u8, b3: u8) -> u32 {
    (b0 as u32) | ((b1 as u32) << 8u32) | ((b2 as u32) << 16u32) | ((b3 as u32) << 24u32)
}

proof fn lemma_le16_bytes(v: u16)
    ensures
        le16(v as u8, (v >> 8u16) as u8) == v,
{
    assert(((v as u8) as u16) | ((((v >> 8u16) as u8) as u16) << 8u16) == v) by (bit_vector);
}

proof fn lemma_le32_bytes(v: u32)
    ensures
        le32(v as u8, (v >> 8u32) as u8, (v >> 16u32) as u8, (v >> 24u32) as u8) == v,
{
    assert(((v as u8) as u32) | ((((v >> 8u32) as u8) as u32) << 8u32) | ((((v >> 16u32) as u8)
        as u32) << 16u32) | ((((v >> 24u32) as u8) as u32) << 24u32) == v) by (bit_vector);
}

/// What a read gives: the value where the bus holds it, else an access fault.
pub open spec fn read_result<T>(v: Option<T>) -> BusResult<T> {
    match v {
        Some(x) => Ok(x),
        None => Err(BusError::AccessFault),
    }
}

/// A one-byte write: it succeeds exactly on RAM and changes that byte alone.
pub open spec fn write_u8_effect(pre: Bus, post: Bus, addr: u32, value: u8, r: BusResult<()>) -> bool {
    &&& r is Ok <==> pre.in_ram(addr as int, 1)
    &&& post.base == pre.base
    &&& post.exit_addr == pre.exit_addr
    &&& post.exit_code == pre.exit_code
    &&& r is Ok ==> post.mem@ == pre.mem@.update(addr - pre.base, value)
    &&& r is Err ==> post.mem@ == pre.mem@
}

/// A two-byte write: it succeeds exactly on RAM, after which the two bytes
/// read back as `value`; no other byte changes.
pub open spec fn write_u16_effect(pre: Bus, post: Bus, addr: u32, value: u16, r: BusResult<()>) -> bool {
    &&& r is Ok <==> pre.in_ram(addr as int, 2)
    &&& post.base == pre.base
    &&& post.exit_addr == pre.exit_addr
    &&& post.exit_code == pre.exit_code
    &&& post.mem@.len() == pre.mem@.len()
    &&& r is Ok ==> post.spec_read_u16(addr as int) == Some(value)
    &&& r is Ok ==> forall|a: int|
        (a < addr || a >= addr + 2) && pre.in_ram(a, 1) ==> #[trigger] post.byte_at(a)
            == pre.byte_at(a)
    &&& r is Err ==> post.mem@ == pre.mem@
}

/// A four-byte write: at the halt device it latches `value` as the exit code
/// and leaves RAM alone; elsewhere it succeeds exactly on RAM, after which
/// the four bytes read back as `value` and no other byte changes.
pub open spec fn write_u32_effect(pre: Bus, post: Bus, addr: u32, value: u32, r: BusResult<()>) -> bool {
    &&& r is Ok <==> (addr == pre.exit_addr || pre.in_ram(addr as int, 4))
    &&& post.base == pre.base
    &&& post.exit_addr == pre.exit_addr
    &&& post.mem@.len() == pre.mem@.len()
    &&& addr == pre.exit_addr ==> post.exit_code == Some(value) && post.mem@ == pre.mem@
    &&& addr != pre.exit_addr ==> post.exit_code == pre.exit_code
    &&& addr != pre.exit_addr && r is Ok ==> post.spec_read_u32(addr as int) == Some(value)
    &&& addr != pre.exit_addr && r is Ok ==> forall|a: int|
        (a < addr || a >= addr + 4) && pre.in_ram(a, 1) ==> #[trigger] post.byte_at(a)
            == pre.byte_at(a)
    &&& r is Err ==> post.mem@ == pre.mem@
}

/// RAM of `mem.len()` bytes starting at physical address `base`, and a halt
/// device at `exit_addr`: a 32-bit write there latches the written value as
/// the exit code.
pub struct Bus {
    pub base: u32,
    pub mem: Vec<u8>,
    pub exit_addr: u32,
    pub exit_code: Option<u32>,
}

impl Bus {
    /// Whether `len` bytes from `addr` all lie in RAM.
    pub open spec fn in_ram(&self, addr: int, len: int) -> bool {
        self.base <= addr && addr - self.base + len <= self.mem@.len()
    }

    /// The byte of RAM at physical address `addr`.
    pub open spec fn byte_at(&self, addr: int) -> u8 {
        self.mem@[addr - self.base]
    }

    pub open spec fn spec_read_u8(&self, addr: int) -> Option<u8> {
        if self.in_ram(addr, 1) {
            Some(self.byte_at(addr))
        } else {
            None
        }
    }

    pub open spec fn spec_read_u16(&self, addr: int) -> Option<u16> {
        if self.in_ram(addr, 2) {
            Some(le16(self.byte_at(addr), self.byte_at(addr + 1)))
        } else {
            None
        }
    }

    pub open spec fn spec_read_u32(&self, addr: int) -> Option<u32> {
        if self.in_ram(addr, 4) {
            Some(
                le32(
                    self.byte_at(addr),
                    self.byte_at(addr + 1),
                    self.byte_at(addr + 2),
                    self.byte_at(addr + 3),
                ),
            )
        } else {
            None
        }
    }

    /// A bus of `size` zeroed bytes at `base`, with no exit code latched.
    pub fn new(base: u32, size: u32, exit_addr: u32) -> (r: Bus)
        ensures
            r.base == base,
            r.mem@ == Seq::new(size as nat, |i: int| 0u8),
            r.exit_addr == exit_addr,
            r.exit_code is None,
    {
        let mut mem: Vec<u8> = Vec::new();
        let mut i: u32 = 0;
        while i < size
            invariant
                i <= size,
                mem@ == Seq::new(i as nat, |j: int| 0u8),
            decreases size - i,
        {
            mem.push(0u8);
            i = i + 1;
            assert(mem@ =~= Seq::new(i as nat, |j: int| 0u8));
        }
        Bus { base, mem, exit_addr, exit_code: None }
    }

    /// Offset into RAM of an access of `len` bytes at `addr`, if it fits.
    fn ram_index(&self, addr: u32, len: usize) -> (r: Option<usize>)
        ensures
            r is Some <==> self.in_ram(addr as int, len as int),
            r is Some ==> r.unwrap() == addr - self.base,
            r is Some ==> r.unwrap() + len <= self.mem@.len() <= usize::MAX,
    {
        if addr < self.base {
            return None;
        }
        let off = addr - self.base;
        if (off as usize) <= self.mem.len() && len <= self.mem.len() - (off as usize) {
            Some(off as usize)
        } else {
            None
        }
    }

    pub fn read_u8(&self, addr: u32) -> (r: BusResult<u8>)
        ensures
            r == read_result(self.spec_read_u8(addr as int)),
    {
        match self.ram_index(addr, 1) {
            Some(i) => Ok(self.mem[i]),
            None => Err(BusError::AccessFault),
        }
    }

    pub fn read_u16(&self, addr: u32) -> (r: BusResult<u16>)
        ensures
            r == read_result(self.spec_read_u16(addr as int)),
    {
        match self.ram_index(addr, 2) {
            Some(i) => {
                let b0 = self.mem[i];
                let b1 = self.mem[i + 1];
                Ok((b0 as u16) | ((b1 as u16) << 8u16))
            },
            None => Err(BusError::AccessFault),
        }
    }

    pub fn read_u32(&self, addr: u32) -> (r: BusResult<u32>)
        ensures
            r == read_result(self.spec_read_u32(addr as int)),
    {
        match self.ram_index(addr, 4) {
            Some(i) => {
                let b0 = self.mem[i];
                let b1 = self.mem[i + 1];
                let b2 = self.mem[i + 2];
                let b3 = self.mem[i + 3];
                Ok((b0 as u32) | ((b1 as u32) << 8u32) | ((b2 as u32) << 16u32) | ((b3 as u32)
                    << 24u32))
            },
            None => Err(BusError::AccessFault),
        }
    }

    pub fn write_u8(&mut self, addr: u32, value: u8) -> (r: BusResult<()>)
        ensures
            write_u8_effect(*old(self), *final(self), addr, value, r),
    {
        match self.ram_index(addr, 1) {
            Some(i) => {
                self.mem.set(i, value);
                Ok(())
            },
            None => Err(BusError::AccessFault),
        }
    }

    pub fn write_u16(&mut self, addr: u32, value: u16) -> (r: BusResult<()>)
        ensures
            write_u16_effect(*old(self), *final(self), addr, value, r),
    {
        match self.ram_index(addr, 2) {
            Some(i) => {
                let b0 = #[verifier::truncate] (value as u8);
                let b1 = #[verifier::truncate] ((value >> 8u16) as u8);
                proof {
                    lemma_le16_bytes(value);
                }
                self.mem.set(i, b0);
                self.mem.set(i + 1, b1);
                Ok(())
            },
            None => Err(BusError::AccessFault),
        }
    }

    pub fn write_u32(&mut self, addr: u32, value: u32) -> (r: BusResult<()>)
        ensures
            write_u32_effect(*old(self), *final(self), addr, value, r),
    {
        if addr == self.exit_addr {
            self.exit_code = Some(value);
            return Ok(());
        }
        match self.ram_index(addr, 4) {
            Some(i) => {
                proof {
                    lemma_le32_bytes(value);
                }
                self.mem.set(i, #[verifier::truncate] (value as u8));
                self.mem.set(i + 1, #[verifier::truncate] ((value >> 8u32) as u8));
                self.mem.set(i + 2, #[verifier::truncate] ((value >> 16u32) as u8));
                self.mem.set(i + 3, #[verifier::truncate] ((value >> 24u32) as u8));
                Ok(())
            },
            None => Err(BusError::AccessFault),
        }
    }

    /// The latched exit code; reading it does not clear it.
    pub fn try_get_exit_code(&self) -> (r: Option<u32>)
        ensures
            r == self.exit_code,
    {
        self.exit_code
    }
}

/// A read-modify-write operation on a 32-bit word.
#[derive(PartialEq, Eq, Structural, Debug, Clone, Copy)]
pub enum AtomicOp {
    Swap,
    Add,
    And,
    Or,
    Xor,
    Min,
    Max,
    Minu,
    Maxu,
}

/// A 32-bit word read as a two's-complement number.
pub open spec fn as_signed(x: u32) -> int {
    if x < 0x8000_0000 {
        x as int
    } else {
        x - 0x1_0000_0000
    }
}

/// The word an atomic operation stores, from the word it read and its operand.
pub open spec fn amo_result(op: AtomicOp, read: u32, value: u32) -> u32 {
    match op {
        AtomicOp::Swap => value,
        AtomicOp::Add => ((read + value) % 0x1_0000_0000) as u32,
        AtomicOp::And => read & value,
        AtomicOp::Or => read | value,
        AtomicOp::Xor => read ^ value,
        AtomicOp::Min => if as_signed(read) <= as_signed(value) { read } else { value },
        AtomicOp::Max => if as_signed(read) >= as_signed(value) { read } else { value },
        AtomicOp::Minu => if read <= value { read } else { value },
        AtomicOp::Maxu => if read >= value { read } else { value },
    }
}

fn signed_le(a: u32, b: u32) -> (r: bool)
    ensures
        r == (as_signed(a) <= as_signed(b)),
{
    let a_neg = a >= 0x8000_0000u32;
    let b_neg = b >= 0x8000_0000u32;
    if a_neg != b_neg {
        a_neg
    } else {
        a <= b
    }
}

impl AtomicOp {
    pub fn do_arith_u32(&self, read: u32, value: u32) -> (r: u32)
        ensures
            r == amo_result(*self, read, value),
    {
        match self {
            AtomicOp::Swap => value,
            AtomicOp::Add => read.wrapping_add(value),
            AtomicOp::And => read & value,
            AtomicOp::Or => read | value,
            AtomicOp::Xor => read ^ value,
            AtomicOp::Min => if signed_le(read, value) {
                read
            } else {
                value
            },
            AtomicOp::Max => if signed_le(value, read) {
                read
            } else {
                value
            },
            AtomicOp::Minu => if read <= value {
                read
            } else {
                value
            },
            AtomicOp::Maxu => if read >= value {
                read
            } else {
                value
            },
        }
    }
}

} // verus!
