use vstd::prelude::*;

verus! {

/// Major opcode of the system instructions.
pub const SYSTEM: u32 = 0x73;

/// Number of the read-only `time` counter among the control registers.
pub const TIME_COUNTER: u32 = 0xC01;

/// The `funct7` field of every `sfence.vma`.
pub const FENCE_VMA: u32 = 0x09;

/// Bits 6..0 of an instruction word.
pub open spec fn opcode(word: u32) -> u32 {
    word & 0x7F
}

/// Bits 11..7 of an instruction word: the destination register.
pub open spec fn rd_field(word: u32) -> u32 {
    (word >> 7) & 0x1F
}

/// Bits 14..12 of an instruction word.
pub open spec fn funct3(word: u32) -> u32 {
    (word >> 12) & 0x7
}

/// Bits 19..15 of an instruction word: the first source register.
pub open spec fn rs1_field(word: u32) -> u32 {
    (word >> 15) & 0x1F
}

/// Bits 31..20 of an instruction word: the control register of a `csrr*`.
pub open spec fn csr_field(word: u32) -> u32 {
    word >> 20
}

/// Bits 31..25 of an instruction word.
pub open spec fn funct7(word: u32) -> u32 {
    word >> 25
}

/// Whether the word is `rdtime rd`, that is `csrrs rd, time, x0`, for any `rd`.
pub open spec fn is_read_time(word: u32) -> bool {
    &&& opcode(word) == SYSTEM
    &&& funct3(word) == 2
    &&& rs1_field(word) == 0
    &&& csr_field(word) == TIME_COUNTER
}

/// Whether the word is `sfence.vma rs1, rs2`, for any two source registers.
pub open spec fn is_fence_vma(word: u32) -> bool {
    &&& opcode(word) == SYSTEM
    &&& rd_field(word) == 0
    &&& funct3(word) == 0
    &&& funct7(word) == FENCE_VMA
}

/// What the firmware does in place of an instruction that trapped as illegal.
#[derive(Clone, Copy, Debug, PartialEq, Eq, Structural)]
pub enum Emulated {
    /// Read the machine time into register `x<rd>`.
    ReadTime { rd: u8 },
    /// Flush the address-translation cache by the means the hart has.
    FlushTranslation,
    /// Nothing: the instruction is not one of the two emulated ones.
    Unknown,
}

/// The emulation that an instruction word calls for.
pub open spec fn decoded(word: u32) -> Emulated {
    if is_read_time(word) {
        Emulated::ReadTime { rd: rd_field(word) as u8 }
    } else if is_fence_vma(word) {
        Emulated::FlushTranslation
    } else {
        Emulated::Unknown
    }
}

/// Decodes the instruction word found at the faulting program counter.
pub fn decode(word: u32) -> (emulated: Emulated)
    ensures
        emulated == decoded(word),
{
    assert((word & 0xFFFF_F07F == 0xC010_2073) == (word & 0x7F == 0x73 && (word >> 12) & 0x7 == 2 && (
    word >> 15) & 0x1F == 0 && word >> 20 == 0xC01)) by (bit_vector);
    assert((word & 0xFE00_7FFF == 0x1200_0073) == (word & 0x7F == 0x73 && (word >> 7) & 0x1F == 0 && (
    word >> 12) & 0x7 == 0 && word >> 25 == 0x09)) by (bit_vector);
    assert((word >> 7) & 0x1F < 32) by (bit_vector);
    if word & 0xFFFF_F07F == 0xC010_2073 {
        let rd: u32 = (word >> 7) & 0x1F;
        Emulated::ReadTime { rd: rd as u8 }
    } else if word & 0xFE00_7FFF == 0x1200_0073 {
        Emulated::FlushTranslation
    } else {
        Emulated::Unknown
    }
}

/// The 32-bit word made of two halfwords, the one at the lower address first.
pub open spec fn word_of(low: u16, high: u16) -> u32 {
    (low + high * 0x1_0000) as u32
}

/// Puts together an instruction that was fetched as two halfwords.
///
/// The faulting program counter may be aligned to two bytes only, so the
/// platform loads the instruction in halves: `low` from the program counter
/// itself and `high` from two bytes further on.
pub fn instruction_word(low: u16, high: u16) -> (word: u32)
    ensures
        word == word_of(low, high),
{
    assert((low as u32) | ((high as u32) << 16) == low + high * 0x1_0000) by (bit_vector);
    (low as u32) | ((high as u32) << 16)
}

/// Width of the physical page number in `satp`.
pub const SATP_PPN_MASK: u64 = 0xFFF_FFFF_FFFF;

/// Width of the page-table root that the legacy register holds.
pub const SPTBR_MASK: u64 = 0x3F_FFFF_FFFF;

/// The virtual-memory field of the legacy `mstatus` layout, bits 28..24.
pub const STATUS_VM_MASK: u64 = 0x1F00_0000;

/// The value of the virtual-memory field that selects three-level paging.
pub const STATUS_VM_SV39: u64 = 9;

/// The legacy root pointer for a value of `satp`: the physical page number
/// of the root table, cut to the 38 bits that the legacy register holds.
pub open spec fn legacy_root(satp: u64) -> u64 {
    (satp & SATP_PPN_MASK) & SPTBR_MASK
}

/// Translates `satp` into the value to write to the legacy root register.
pub fn root_from_satp(satp: u64) -> (sptbr: u64)
    ensures
        sptbr == legacy_root(satp),
        sptbr == satp % 0x40_0000_0000,
{
    assert((satp & 0xFFF_FFFF_FFFF) & 0x3F_FFFF_FFFF == satp % 0x40_0000_0000) by (bit_vector);
    let ppn = satp & SATP_PPN_MASK;
    ppn & SPTBR_MASK
}

/// The virtual-memory field of a legacy `mstatus` value.
pub open spec fn status_vm(mstatus: u64) -> u64 {
    (mstatus & STATUS_VM_MASK) >> 24
}

/// `mstatus` with paging forced on: the virtual-memory field selects
/// three-level paging, and every bit outside the field is as before.
pub open spec fn paged_status(mstatus: u64) -> u64 {
    (mstatus & !STATUS_VM_MASK) | (STATUS_VM_SV39 << 24)
}

/// Computes the `mstatus` value that turns three-level paging on.
pub fn status_with_paging(mstatus: u64) -> (status: u64)
    ensures
        status == paged_status(mstatus),
        status_vm(status) == STATUS_VM_SV39,
        status & !STATUS_VM_MASK == mstatus & !STATUS_VM_MASK,
{
    assert((((mstatus & !0x1F00_0000u64) | (9u64 << 24)) & 0x1F00_0000) >> 24 == 9) by (bit_vector);
    assert(((mstatus & !0x1F00_0000u64) | (9u64 << 24)) & !0x1F00_0000u64 == mstatus & !0x1F00_0000u64)
        by (bit_vector);
    (mstatus & !STATUS_VM_MASK) | (STATUS_VM_SV39 << 24)
}

/// The two emulated encodings never overlap, and the destination of a time
/// read is always a register number.
pub proof fn encodings_are_disjoint(word: u32)
    ensures
        !(is_read_time(word) && is_fence_vma(word)),
        rd_field(word) < 32,
{
    assert(!((word >> 12) & 0x7 == 2 && (word >> 12) & 0x7 == 0)) by (bit_vector);
    assert((word >> 7) & 0x1F < 32) by (bit_vector);
}

/// For every register number there is a time read with that destination, and
/// decoding it gives the number back.
pub proof fn read_time_encoding(rd: u8)
    requires
        rd < 32,
    ensures
        decoded(read_time_word(rd)) == (Emulated::ReadTime { rd }),
{
    let r = rd as u32;
    assert(r < 32 ==> {
        let w = 0xC010_2073u32 | (r << 7);
        w & 0x7F == 0x73 && (w >> 12) & 0x7 == 2 && (w >> 15) & 0x1F == 0 && w >> 20 == 0xC01 && (w
            >> 7) & 0x1F == r
    }) by (bit_vector);
}

/// The encoding of `rdtime x<rd>`.
pub open spec fn read_time_word(rd: u8) -> u32 {
    0xC010_2073u32 | ((rd as u32) << 7)
}

} // verus!
