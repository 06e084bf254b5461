//! Byte-addressed physical memory with page-table based address translation.
//!
//! The page table is a linear array of big-endian 32-bit entries in physical
//! memory, one per 4 KiB virtual page, starting at the page table base.
use vstd::prelude::*;

verus! {

/// Errors reported by the memory interface.
#[derive(Debug, PartialEq, Eq, Clone, Copy, Structural)]
pub enum MemoryError {
    PageFault(u32),
    WriteProtection(u32),
    InvalidAddress(u32),
}

/// A decoded page table entry.
#[derive(Debug, PartialEq, Eq, Clone, Copy, Structural)]
pub struct PageTableEntry {
    pub physical_page: u32,
    pub valid: bool,
    pub writable: bool,
    pub supervisor: bool,
}

/// `a + b` on a 32-bit address bus.
pub open spec fn addr_add(a: u32, b: int) -> u32 {
    ((a as int + b) % 0x1_0000_0000) as u32
}

/// `256` to the power `n`.
pub open spec fn pow256(n: nat) -> nat
    decreases n,
{
    if n == 0 {
        1
    } else {
        256 * pow256((n - 1) as nat)
    }
}

/// Big-endian value of a byte sequence.
pub open spec fn be_value(s: Seq<u8>) -> nat
    decreases s.len(),
{
    if s.len() == 0 {
        0
    } else {
        be_value(s.drop_last()) * 256 + s.last() as nat
    }
}

/// The low `n` bytes of `v`, most significant first.
#[verifier::opaque]
pub open spec fn be_bytes(v: u64, n: nat) -> Seq<u8>
    decreases n,
{
    if n == 0 {
        Seq::empty()
    } else {
        be_bytes(v >> 8, (n - 1) as nat).push((v & 0xFF) as u8)
    }
}

/// Entry encoding of a page table entry.
pub open spec fn pte_encode(e: PageTableEntry) -> u32 {
    (e.physical_page & 0xFFFFF000) | (if e.valid { 1u32 } else { 0u32 }) | (if e.writable {
        2u32
    } else {
        0u32
    }) | (if e.supervisor { 4u32 } else { 0u32 })
}

/// Page table entry decoded from its encoding.
pub open spec fn pte_decode(v: u32) -> PageTableEntry {
    PageTableEntry {
        physical_page: v & 0xFFFFF000,
        valid: v & 1 != 0,
        writable: v & 2 != 0,
        supervisor: v & 4 != 0,
    }
}

/// Entry `e` marks its page present.
pub open spec fn pte_valid(e: u32) -> bool {
    e & 1 != 0
}

/// What a memory holds, as the specifications see it.
pub struct MemView {
    pub bytes: Seq<u8>,
    pub mmu_enabled: bool,
    pub page_table_base: u32,
}

impl MemView {
    /// Physical memory has its fixed size.
    pub open spec fn wf(self) -> bool {
        self.bytes.len() == MEMORY_SIZE
    }

    /// Big-endian word stored at physical address `a`.
    pub open spec fn word_at(self, a: int) -> u32 {
        (((self.bytes[a] as u32) << 24) | ((self.bytes[a + 1] as u32) << 16) | ((
        self.bytes[a + 2] as u32) << 8) | (self.bytes[a + 3] as u32))
    }

    /// Physical word read: the word when all four bytes are in range.
    pub open spec fn read_physical(self, a: u32) -> Result<u32, MemoryError> {
        if a as int + 3 >= self.bytes.len() {
            Err(MemoryError::InvalidAddress(a))
        } else {
            Ok(self.word_at(a as int))
        }
    }

    /// Physical word write: the four bytes of `v` at `a`, when all are in range.
    pub open spec fn write_physical(self, a: u32, v: u32) -> (MemView, Result<(), MemoryError>) {
        if a as int + 3 >= self.bytes.len() {
            (self, Err(MemoryError::InvalidAddress(a)))
        } else {
            let w = be_bytes(v as u64, 4);
            (
                MemView {
                    bytes: self.bytes.update(a as int, w[0]).update(a + 1, w[1]).update(
                        a + 2,
                        w[2],
                    ).update(a + 3, w[3]),
                    ..self
                },
                Ok(()),
            )
        }
    }

    /// Physical address of the page table entry for virtual address `va`.
    pub open spec fn pte_addr(self, va: u32) -> u32 {
        addr_add(self.page_table_base, (va >> 12) as int * 4)
    }

    /// Virtual to physical translation. With the MMU off an address maps to itself.
    #[verifier::opaque]
    pub open spec fn translate(self, va: u32) -> Result<usize, MemoryError> {
        if !self.mmu_enabled {
            Ok(va as usize)
        } else {
            match self.read_physical(self.pte_addr(va)) {
                Err(e) => Err(e),
                Ok(e) => if !pte_valid(e) {
                    Err(MemoryError::PageFault(va))
                } else {
                    Ok(((e & 0xFFFFF000) | (va & 0xFFF)) as usize)
                },
            }
        }
    }

    /// Byte read at virtual address `va`.
    pub open spec fn read_byte(self, va: u32) -> Result<u8, MemoryError> {
        match self.translate(va) {
            Err(e) => Err(e),
            Ok(p) => if p < self.bytes.len() {
                Ok(self.bytes[p as int])
            } else {
                Err(MemoryError::InvalidAddress(p as u32))
            },
        }
    }

    /// Byte write at virtual address `va`: the new memory and the outcome.
    pub open spec fn write_byte(self, va: u32, v: u8) -> (MemView, Result<(), MemoryError>) {
        match self.translate(va) {
            Err(e) => (self, Err(e)),
            Ok(p) => if p < self.bytes.len() {
                (MemView { bytes: self.bytes.update(p as int, v), ..self }, Ok(()))
            } else {
                (self, Err(MemoryError::InvalidAddress(p as u32)))
            },
        }
    }

    /// The `n` bytes from `va` upward, read one after another; the first failure wins.
    #[verifier::opaque]
    pub open spec fn read_bytes(self, va: u32, n: nat) -> Result<Seq<u8>, MemoryError>
        decreases n,
    {
        if n == 0 {
            Ok(Seq::empty())
        } else {
            match self.read_bytes(va, (n - 1) as nat) {
                Err(e) => Err(e),
                Ok(s) => match self.read_byte(addr_add(va, n - 1)) {
                    Err(e) => Err(e),
                    Ok(b) => Ok(s.push(b)),
                },
            }
        }
    }

    /// `data` written from `va` upward one byte after another; a failing byte
    /// stops the write and the bytes already written stay.
    #[verifier::opaque]
    pub open spec fn write_bytes(self, va: u32, data: Seq<u8>) -> (MemView, Result<(), MemoryError>)
        decreases data.len(),
    {
        if data.len() == 0 {
            (self, Ok(()))
        } else {
            let (m, r) = self.write_bytes(va, data.drop_last());
            match r {
                Err(e) => (m, Err(e)),
                Ok(_) => m.write_byte(addr_add(va, data.len() - 1), data.last()),
            }
        }
    }

    /// The `n` bytes from `va` upward combined big-endian.
    pub open spec fn read_value(self, va: u32, n: nat) -> Result<u64, MemoryError> {
        match self.read_bytes(va, n) {
            Err(e) => Err(e),
            Ok(s) => Ok(be_value(s) as u64),
        }
    }

    /// Word read at `va`, big-endian.
    pub open spec fn read_word(self, va: u32) -> Result<u32, MemoryError> {
        match self.read_value(va, 4) {
            Err(e) => Err(e),
            Ok(v) => Ok(v as u32),
        }
    }

    /// Word write at `va`, big-endian.
    pub open spec fn write_word(self, va: u32, v: u32) -> (MemView, Result<(), MemoryError>) {
        self.write_bytes(va, be_bytes(v as u64, 4))
    }
}

/// Physical memory and the state of the MMU that translates into it.
#[derive(Debug)]
pub struct Memory {
    memory: Vec<u8>,
    mmu_enabled: bool,
    page_table_base: u32,
}

impl View for Memory {
    type V = MemView;

    closed spec fn view(&self) -> MemView {
        MemView {
            bytes: self.memory@,
            mmu_enabled: self.mmu_enabled,
            page_table_base: self.page_table_base,
        }
    }
}

} // verus!

verus! {

impl PageTableEntry {
    /// A valid, writable user entry for the page holding `physical_page`.
    pub fn new(physical_page: u32) -> (r: Self)
        ensures
            r == (PageTableEntry {
                physical_page: physical_page & 0xFFFFF000,
                valid: true,
                writable: true,
                supervisor: false,
            }),
    {
        PageTableEntry {
            physical_page: physical_page & 0xFFFFF000,
            valid: true,
            writable: true,
            supervisor: false,
        }
    }

    /// The entry as stored in the page table.
    pub fn to_u32(&self) -> (r: u32)
        ensures
            r == pte_encode(*self),
    {
        let valid_bit: u32 = if self.valid { 1 } else { 0 };
        let writable_bit: u32 = if self.writable { 2 } else { 0 };
        let supervisor_bit: u32 = if self.supervisor { 4 } else { 0 };
        (self.physical_page & 0xFFFFF000) | valid_bit | writable_bit | supervisor_bit
    }

    /// The entry stored as `value`.
    pub fn from_u32(value: u32) -> (r: Self)
        ensures
            r == pte_decode(value),
    {
        PageTableEntry {
            physical_page: value & 0xFFFFF000,
            valid: value & 1 != 0,
            writable: value & 2 != 0,
            supervisor: value & 4 != 0,
        }
    }
}

} // verus!

verus! {

/// Bytes of physical memory in a new `Memory`: 16 MiB.
pub const MEMORY_SIZE: usize = 16777216;

impl Memory {
    /// Physical memory has its fixed size, `MEMORY_SIZE` bytes.
    pub open spec fn wf(&self) -> bool {
        self@.wf()
    }

    /// A zeroed memory of `MEMORY_SIZE` bytes with the MMU off and base 0.
    pub fn new() -> (r: Self)
        ensures
            r.wf(),
            forall|i: int| 0 <= i < MEMORY_SIZE ==> r@.bytes[i] == 0,
            !r@.mmu_enabled,
            r@.page_table_base == 0,
    {
        Memory { memory: vec![0u8; MEMORY_SIZE], mmu_enabled: false, page_table_base: 0 }
    }

    /// Number of bytes of physical memory.
    pub fn size(&self) -> (r: usize)
        ensures
            r == self@.bytes.len(),
    {
        self.memory.len()
    }

    /// Turns translation on or off.
    pub fn set_mmu_enabled(&mut self, enabled: bool)
        ensures
            final(self)@ == (MemView { mmu_enabled: enabled, ..old(self)@ }),
    {
        self.mmu_enabled = enabled;
    }

    /// Whether translation is on.
    pub fn is_mmu_enabled(&self) -> (r: bool)
        ensures
            r == self@.mmu_enabled,
    {
        self.mmu_enabled
    }

    /// Sets the page table base, aligned down to 4 KiB.
    pub fn set_page_table_base(&mut self, base: u32)
        ensures
            final(self)@ == (MemView { page_table_base: base & 0xFFFFF000, ..old(self)@ }),
    {
        self.page_table_base = base & 0xFFFFF000;
    }

    /// The page table base.
    pub fn page_table_base(&self) -> (r: u32)
        ensures
            r == self@.page_table_base,
    {
        self.page_table_base
    }

    /// Reads the big-endian word at physical address `addr`.
    pub fn read_physical_u32(&mut self, addr: u32) -> (r: Result<u32, MemoryError>)
        ensures
            final(self)@ == old(self)@,
            r == old(self)@.read_physical(addr),
    {
        let a = addr as usize;
        let len = self.memory.len();
        if a >= len || len - a <= 3 {
            return Err(MemoryError::InvalidAddress(addr));
        }
        let b0 = self.memory[a] as u32;
        let b1 = self.memory[a + 1] as u32;
        let b2 = self.memory[a + 2] as u32;
        let b3 = self.memory[a + 3] as u32;
        Ok((b0 << 24) | (b1 << 16) | (b2 << 8) | b3)
    }

    /// Writes `value` big-endian at physical address `addr`.
    pub fn write_physical_u32(&mut self, addr: u32, value: u32) -> (r: Result<(), MemoryError>)
        ensures
            (final(self)@, r) == old(self)@.write_physical(addr, value),
            final(self)@.bytes.len() == old(self)@.bytes.len(),
    {
        let a = addr as usize;
        let len = self.memory.len();
        if a >= len || len - a <= 3 {
            return Err(MemoryError::InvalidAddress(addr));
        }
        proof {
            lemma_be_bytes_4(value);
        }
        self.memory.set(a, ((value >> 24) & 0xFF) as u8);
        self.memory.set(a + 1, ((value >> 16) & 0xFF) as u8);
        self.memory.set(a + 2, ((value >> 8) & 0xFF) as u8);
        self.memory.set(a + 3, (value & 0xFF) as u8);
        Ok(())
    }

    /// Translates a virtual address; with the MMU on this walks the page table.
    pub fn translate_address(&mut self, virtual_addr: u32) -> (r: Result<usize, MemoryError>)
        ensures
            final(self)@ == old(self)@,
            r == old(self)@.translate(virtual_addr),
    {
        proof {
            reveal(MemView::translate);
        }
        if !self.mmu_enabled {
            return Ok(virtual_addr as usize);
        }
        let page_index = virtual_addr >> 12;
        assert(page_index <= 0xFFFFF) by (bit_vector)
            requires
                page_index == virtual_addr >> 12,
        ;
        let pte_addr = self.page_table_base.wrapping_add(page_index * 4);
        assert(pte_addr == old(self)@.pte_addr(virtual_addr));
        let pte_value = match self.read_physical_u32(pte_addr) {
            Ok(v) => v,
            Err(e) => return Err(e),
        };
        let pte = PageTableEntry::from_u32(pte_value);
        if !pte.valid {
            return Err(MemoryError::PageFault(virtual_addr));
        }
        let offset = virtual_addr & 0xFFF;
        assert((pte_value & 0xFFFFF000) & 0xFFFFF000 == pte_value & 0xFFFFF000) by (bit_vector);
        Ok(((pte.physical_page & 0xFFFFF000) | offset) as usize)
    }

    /// Reads the byte at virtual address `addr`.
    pub fn read_byte(&mut self, addr: u32) -> (r: Result<u8, MemoryError>)
        ensures
            final(self)@ == old(self)@,
            r == old(self)@.read_byte(addr),
    {
        let p = match self.translate_address(addr) {
            Ok(p) => p,
            Err(e) => return Err(e),
        };
        if p >= self.memory.len() {
            return Err(MemoryError::InvalidAddress(p as u32));
        }
        Ok(self.memory[p])
    }

    /// Writes the byte at virtual address `addr`.
    pub fn write_byte(&mut self, addr: u32, value: u8) -> (r: Result<(), MemoryError>)
        ensures
            (final(self)@, r) == old(self)@.write_byte(addr, value),
            final(self)@.bytes.len() == old(self)@.bytes.len(),
    {
        let p = match self.translate_address(addr) {
            Ok(p) => p,
            Err(e) => return Err(e),
        };
        if p >= self.memory.len() {
            return Err(MemoryError::InvalidAddress(p as u32));
        }
        self.memory.set(p, value);
        Ok(())
    }
}

/// The bytes of a word, most significant first.
pub proof fn lemma_be_bytes_4(v: u32)
    ensures
        be_bytes(v as u64, 4) =~= seq![
            ((v >> 24) & 0xFF) as u8,
            ((v >> 16) & 0xFF) as u8,
            ((v >> 8) & 0xFF) as u8,
            (v & 0xFF) as u8,
        ],
{
    let x = v as u64;
    reveal_with_fuel(be_bytes, 5);
    assert((((((x >> 8u64) >> 8u64) >> 8u64) & 0xFF) as u8) == (((v >> 24u32) & 0xFF) as u8))
        by (bit_vector)
        requires
            x == v as u64,
    ;
    assert(((((x >> 8u64) >> 8u64) & 0xFF) as u8) == (((v >> 16u32) & 0xFF) as u8)) by (bit_vector)
        requires
            x == v as u64,
    ;
    assert((((x >> 8u64) & 0xFF) as u8) == (((v >> 8u32) & 0xFF) as u8)) by (bit_vector)
        requires
            x == v as u64,
    ;
    assert(((x & 0xFF) as u8) == ((v & 0xFF) as u8)) by (bit_vector)
        requires
            x == v as u64,
    ;
}

} // verus!

verus! {

impl Memory {
    /// Reads `n` bytes from `addr` upward, one after another, and combines
    /// them big-endian; the first failing byte ends the read.
    pub fn read_be(&mut self, addr: u32, n: u32) -> (r: Result<u64, MemoryError>)
        requires
            n <= 8,
        ensures
            final(self)@ == old(self)@,
            r == old(self)@.read_value(addr, n as nat),
    {
        let mut value: u64 = 0;
        let mut i: u32 = 0;
        proof {
            reveal(MemView::read_bytes);
            lemma_pow256_le(0, 7);
        }
        while i < n
            invariant
                i <= n <= 8,
                self@ == old(self)@,
                old(self)@.read_bytes(addr, i as nat) is Ok,
                be_value(old(self)@.read_bytes(addr, i as nat)->Ok_0) == value as nat,
                value < pow256(i as nat),
            decreases n - i,
        {
            proof {
                reveal(MemView::read_bytes);
            }
            let ghost prefix = old(self)@.read_bytes(addr, i as nat)->Ok_0;
            match self.read_byte(addr.wrapping_add(i)) {
                Ok(b) => {
                    proof {
                        lemma_pow256_le(i as nat, 7);
                        lemma_pow256_7();
                        assert(value < 0x100000000000000);
                        lemma_shift_or_byte(value, b);
                        assert(prefix.push(b).drop_last() =~= prefix);
                        assert(old(self)@.read_bytes(addr, (i + 1) as nat) == Ok::<
                            Seq<u8>,
                            MemoryError,
                        >(prefix.push(b)));
                    }
                    value = (value << 8) | b as u64;
                },
                Err(e) => {
                    proof {
                        lemma_read_bytes_err(old(self)@, addr, (i + 1) as nat, n as nat);
                    }
                    return Err(e);
                },
            }
            i = i + 1;
        }
        Ok(value)
    }

    /// Reads the big-endian word at virtual address `addr`, byte by byte.
    pub fn read_word(&mut self, addr: u32) -> (r: Result<u32, MemoryError>)
        ensures
            final(self)@ == old(self)@,
            r == old(self)@.read_word(addr),
    {
        match self.read_be(addr, 4) {
            Ok(v) => Ok(v as u32),
            Err(e) => Err(e),
        }
    }
}

/// Powers of 256 grow with the exponent.
pub proof fn lemma_pow256_le(i: nat, j: nat)
    requires
        i <= j,
    ensures
        pow256(i) <= pow256(j),
        pow256(i) >= 1,
    decreases j,
{
    if i < j {
        lemma_pow256_le(i, (j - 1) as nat);
    } else if j > 0 {
        lemma_pow256_le((j - 1) as nat, (j - 1) as nat);
    }
}

/// Seven bytes span `2^56`.
pub proof fn lemma_pow256_7()
    ensures
        pow256(7) == 0x100000000000000,
{
    reveal_with_fuel(pow256, 8);
}

/// Appending a byte below a value of at most seven bytes.
pub proof fn lemma_shift_or_byte(v: u64, b: u8)
    requires
        v < 0x100000000000000,
    ensures
        (v << 8) | (b as u64) == v * 256 + b as nat,
        (v << 8) | (b as u64) < 0x10000000000000000,
{
    let w = b as u64;
    assert((v << 8) | w == v * 256 + w) by (bit_vector)
        requires
            v < 0x100000000000000,
            w < 256,
    ;
}

/// Once a read fails, every longer read fails the same way.
pub proof fn lemma_read_bytes_err(m: MemView, va: u32, i: nat, n: nat)
    requires
        i <= n,
        m.read_bytes(va, i) is Err,
    ensures
        m.read_bytes(va, n) == m.read_bytes(va, i),
    decreases n,
{
    reveal(MemView::read_bytes);
    if i < n {
        lemma_read_bytes_err(m, va, i, (n - 1) as nat);
    }
}

} // verus!

verus! {

impl Memory {
    /// Writes the low `n` bytes of `value` big-endian from `addr` upward, one
    /// after another; a failing byte ends the write and earlier bytes stay written.
    pub fn write_be(&mut self, addr: u32, value: u64, n: u32) -> (r: Result<(), MemoryError>)
        requires
            n <= 8,
        ensures
            (final(self)@, r) == old(self)@.write_bytes(addr, be_bytes(value, n as nat)),
            final(self)@.bytes.len() == old(self)@.bytes.len(),
    {
        let ghost data = be_bytes(value, n as nat);
        let mut i: u32 = 0;
        proof {
            reveal(MemView::write_bytes);
            lemma_be_bytes_len(value, n as nat);
            assert(data.take(0) =~= Seq::<u8>::empty());
        }
        while i < n
            invariant
                i <= n <= 8,
                data == be_bytes(value, n as nat),
                data.len() == n,
                self@.bytes.len() == old(self)@.bytes.len(),
                (self@, Ok::<(), MemoryError>(())) == old(self)@.write_bytes(addr, data.take(i as int)),
            decreases n - i,
        {
            let shift: u64 = 8 * ((n - 1 - i) as u64);
            let byte = ((value >> shift) & 0xFF) as u8;
            proof {
                reveal(MemView::write_bytes);
                lemma_be_bytes_index(value, n as nat, i as nat);
                assert(data.take(i + 1).drop_last() =~= data.take(i as int));
                assert(data.take(i + 1).last() == byte);
            }
            match self.write_byte(addr.wrapping_add(i), byte) {
                Ok(()) => {},
                Err(e) => {
                    proof {
                        lemma_write_bytes_err(old(self)@, addr, data, (i + 1) as nat);
                        assert(data.take(n as int) =~= data);
                    }
                    return Err(e);
                },
            }
            i = i + 1;
        }
        proof {
            assert(data.take(n as int) =~= data);
        }
        Ok(())
    }

    /// Writes `value` big-endian at virtual address `addr`, byte by byte.
    pub fn write_word(&mut self, addr: u32, value: u32) -> (r: Result<(), MemoryError>)
        ensures
            (final(self)@, r) == old(self)@.write_word(addr, value),
            final(self)@.bytes.len() == old(self)@.bytes.len(),
    {
        self.write_be(addr, value as u64, 4)
    }
}

/// `be_bytes(v, n)` has `n` bytes.
pub proof fn lemma_be_bytes_len(v: u64, n: nat)
    ensures
        be_bytes(v, n).len() == n,
    decreases n,
{
    reveal(be_bytes);
    if n > 0 {
        lemma_be_bytes_len(v >> 8, (n - 1) as nat);
    }
}

/// Byte `i` of `be_bytes(v, n)` counts from the most significant end.
pub proof fn lemma_be_bytes_index(v: u64, n: nat, i: nat)
    requires
        i < n <= 8,
    ensures
        be_bytes(v, n).len() == n,
        be_bytes(v, n)[i as int] == ((v >> (8 * (n - 1 - i)) as u64) & 0xFF) as u8,
    decreases n,
{
    reveal(be_bytes);
    lemma_be_bytes_len(v, n);
    if i + 1 == n {
        assert(v >> 0u64 == v) by (bit_vector);
    } else {
        lemma_be_bytes_index(v >> 8, (n - 1) as nat, i);
        let k = (8 * (n - 2 - i)) as u64;
        assert((v >> 8u64) >> k == v >> (k + 8)) by (bit_vector)
            requires
                k <= 48,
        ;
    }
}

/// Once a write fails, writing more bytes after it changes nothing further.
pub proof fn lemma_write_bytes_err(m: MemView, va: u32, data: Seq<u8>, i: nat)
    requires
        i <= data.len(),
        m.write_bytes(va, data.take(i as int)).1 is Err,
    ensures
        m.write_bytes(va, data) == m.write_bytes(va, data.take(i as int)),
    decreases data.len(),
{
    reveal(MemView::write_bytes);
    if i < data.len() {
        assert(data.drop_last().take(i as int) =~= data.take(i as int));
        lemma_write_bytes_err(m, va, data.drop_last(), i);
    } else {
        assert(data.take(i as int) =~= data);
    }
}

} // verus!

verus! {

/// With the MMU off, bytes that lie in memory are written in place, one after
/// another, and nothing else changes.
pub proof fn lemma_write_bytes_untranslated(m: MemView, va: u32, data: Seq<u8>)
    requires
        !m.mmu_enabled,
        va + data.len() <= m.bytes.len(),
        va + data.len() <= 0x1_0000_0000,
    ensures
        ({
            let (m2, r) = m.write_bytes(va, data);
            &&& r is Ok
            &&& m2.mmu_enabled == m.mmu_enabled
            &&& m2.page_table_base == m.page_table_base
            &&& m2.bytes.len() == m.bytes.len()
            &&& forall|j: int| 0 <= j < data.len() ==> m2.bytes[va + j] == data[j]
            &&& forall|j: int|
                0 <= j < m.bytes.len() && !(va <= j < va + data.len()) ==> m2.bytes[j]
                    == m.bytes[j]
        }),
    decreases data.len(),
{
    reveal(MemView::write_bytes);
    if data.len() > 0 {
        let init = data.drop_last();
        lemma_write_bytes_untranslated(m, va, init);
        let (m1, r1) = m.write_bytes(va, init);
        let a = addr_add(va, data.len() - 1);
        assert(a == va + data.len() - 1);
        reveal(MemView::translate);
        assert(m1.translate(a) == Ok::<usize, MemoryError>(a as usize));
        let m2 = MemView { bytes: m1.bytes.update(a as int, data.last()), ..m1 };
        assert(m1.write_byte(a, data.last()) == (m2, Ok::<(), MemoryError>(())));
        assert(m.write_bytes(va, data) == m1.write_byte(a, data.last()));
        assert forall|j: int| 0 <= j < data.len() implies m2.bytes[va + j] == data[j] by {
            if j < data.len() - 1 {
                assert(init[j] == data[j]);
            }
        }
    }
}

/// With the MMU off, bytes that lie in memory are read in place.
pub proof fn lemma_read_bytes_untranslated(m: MemView, va: u32, n: nat)
    requires
        !m.mmu_enabled,
        va + n <= m.bytes.len(),
        va + n <= 0x1_0000_0000,
    ensures
        m.read_bytes(va, n) == Ok::<Seq<u8>, MemoryError>(m.bytes.subrange(va as int, va + n)),
    decreases n,
{
    reveal(MemView::read_bytes);
    if n == 0 {
        assert(m.bytes.subrange(va as int, va as int) =~= Seq::<u8>::empty());
    } else {
        lemma_read_bytes_untranslated(m, va, (n - 1) as nat);
        let a = addr_add(va, n - 1);
        assert(a == va + n - 1);
        reveal(MemView::translate);
        assert(m.translate(a) == Ok::<usize, MemoryError>(a as usize));
        assert(m.bytes.subrange(va as int, va + n - 1).push(m.bytes[a as int]) =~= m.bytes.subrange(
            va as int,
            va + n,
        ));
    }
}

/// The big-endian value of the low `n` bytes of `v` is `v` modulo `256^n`.
pub proof fn lemma_be_value_of_bytes(v: u64, n: nat)
    ensures
        be_value(be_bytes(v, n)) == v as nat % pow256(n),
    decreases n,
{
    reveal(be_bytes);
    if n == 0 {
        assert(v as nat % 1 == 0);
    } else {
        lemma_be_value_of_bytes(v >> 8, (n - 1) as nat);
        let s = be_bytes(v >> 8, (n - 1) as nat).push((v & 0xFF) as u8);
        assert(s.drop_last() =~= be_bytes(v >> 8, (n - 1) as nat));
        assert(v >> 8 == v / 256) by (bit_vector);
        assert(v & 0xFF == v % 256) by (bit_vector);
        lemma_pow256_le(0, (n - 1) as nat);
        vstd::arithmetic::div_mod::lemma_mod_breakdown(v as int, 256, pow256((n - 1) as nat) as int);
    }
}

/// Storing `n` bytes of `v` and loading them back from the same address, with
/// the MMU off and the bytes inside memory, returns the low `n` bytes of `v`.
pub proof fn lemma_store_load_round_trip(m: MemView, va: u32, v: u64, n: nat)
    requires
        m.wf(),
        !m.mmu_enabled,
        n <= 8,
        va + n <= MEMORY_SIZE,
    ensures
        ({
            let (m2, r) = m.write_bytes(va, be_bytes(v, n));
            &&& r is Ok
            &&& m2.read_value(va, n) == Ok::<u64, MemoryError>((v as nat % pow256(n)) as u64)
        }),
{
    lemma_be_bytes_len(v, n);
    let data = be_bytes(v, n);
    lemma_write_bytes_untranslated(m, va, data);
    let (m2, _) = m.write_bytes(va, data);
    lemma_read_bytes_untranslated(m2, va, n);
    assert(m2.bytes.subrange(va as int, va + n) =~= data);
    lemma_be_value_of_bytes(v, n);
}

/// A stored word reads back unchanged (MMU off, inside memory).
pub proof fn lemma_word_round_trip(m: MemView, va: u32, w: u32)
    requires
        m.wf(),
        !m.mmu_enabled,
        va + 4 <= MEMORY_SIZE,
    ensures
        m.write_word(va, w).1 is Ok,
        m.write_word(va, w).0.read_word(va) == Ok::<u32, MemoryError>(w),
{
    reveal_with_fuel(pow256, 5);
    lemma_store_load_round_trip(m, va, w as u64, 4);
    assert(pow256(4) == 0x1_0000_0000);
    assert(w as nat % 0x1_0000_0000 == w);
}

/// A stored byte reads back unchanged (MMU off, inside memory).
pub proof fn lemma_byte_round_trip(m: MemView, va: u32, b: u8)
    requires
        m.wf(),
        !m.mmu_enabled,
        va < MEMORY_SIZE,
    ensures
        m.write_byte(va, b).1 is Ok,
        m.write_byte(va, b).0.read_byte(va) == Ok::<u8, MemoryError>(b),
{
    reveal(MemView::translate);
}

/// Translation through a mapped page: when the page table entry for virtual
/// page `p` is valid and names physical page `t`, the address `p * 4096 + k`
/// translates to `t * 4096 + k`; when the entry is not valid it is a page fault.
pub proof fn lemma_translate_mapped(m: MemView, p: u32, k: u32, entry: u32)
    requires
        m.wf(),
        m.mmu_enabled,
        p < 0x10_0000,
        k < 4096,
        m.pte_addr((p * 4096 + k) as u32) + 3 < MEMORY_SIZE,
        entry == m.word_at(m.pte_addr((p * 4096 + k) as u32) as int),
    ensures
        pte_decode(entry).valid ==> m.translate((p * 4096 + k) as u32) == Ok::<usize, MemoryError>(
            (pte_decode(entry).physical_page + k) as usize,
        ),
        !pte_decode(entry).valid ==> m.translate((p * 4096 + k) as u32) == Err::<usize, MemoryError>(
            MemoryError::PageFault((p * 4096 + k) as u32),
        ),
{
    reveal(MemView::translate);
    let va = (p * 4096 + k) as u32;
    assert((entry & 0xFFFFF000) | (va & 0xFFF) == (entry & 0xFFFFF000) + k) by (bit_vector)
        requires
            va == p * 4096 + k,
            p < 0x10_0000,
            k < 4096,
    ;
}

} // verus!
