//! ARM64 instruction decoding and text-region scanning.
//!
//! [`Instruction::from_u32`] classifies a raw 32-bit word into a decoded
//! instruction variant. Each recognized form is a fixed mask/pattern pair;
//! the forms are tried in a fixed priority order and the first match wins,
//! because some patterns overlap at the bit level. A word that matches no
//! form is returned verbatim as [`Instruction::Unk`], so decoding is total.
//!
//! [`TextIter`] steps addresses through the text region (text base up to,
//! exclusively, the rodata base) in 4-byte instruction strides; the caller
//! reads each word and decodes it. [`scan`] decodes a captured snapshot of
//! consecutive words in one pass.

use vstd::prelude::*;

verus! {

// 64-bit LDR, unsigned offset.
pub const LDR_MASK: u32 = 0b1111111111_000000000000_00000_00000;
pub const LDR_MASKED: u32 = 0b1111100101_000000000000_00000_00000;

// 64-bit ADD, immediate.
pub const ADD_MASK: u32 = 0b11111111_00_000000000000_00000_00000;
pub const ADD_MASKED: u32 = 0b10010001_00_000000000000_00000_00000;

pub const ADRP_MASK: u32 = 0b1_00_11111_0000000000000000000_00000;
pub const ADRP_MASKED: u32 = 0b1_00_10000_0000000000000000000_00000;

pub const LDUR_MASK: u32 = 0b11_111_1_11_11_1_000000000_00_00000_00000;
pub const LDUR_MASKED: u32 = 0b11_111_0_00_01_0_000000000_00_00000_00000;

// LDRB, immediate, unsigned offset.
pub const LDRB_MASK: u32 = 0b11_111_1_11_11_0_00000_000_0_00_00000_00000;
pub const LDRB_MASKED: u32 = 0b00_111_0_01_01_0_00000_000_0_00_00000_00000;

// 32-bit SUB, immediate.
pub const SUB_MASK: u32 = 0b1_1_1_11111_00_0_00000_000000_00000_00000;
pub const SUB_MASKED: u32 = 0b0_1_0_10001_00_0_00000_000000_00000_00000;

// 32-bit AND, immediate.
pub const AND_MASK: u32 = 0b1_11_111111_1_000000_000000_00000_00000;
pub const AND_MASKED: u32 = 0b0_00_100100_0_000000_000000_00000_00000;

// 64-bit LDRSW, unsigned offset.
pub const LDRSW_MASK: u32 = 0b11_111_1_11_11_000000000000_00000_00000;
pub const LDRSW_MASKED: u32 = 0b10_111_0_01_10_000000000000_00000_00000;

// 32-bit CBZ.
pub const CBZ_MASK: u32 = 0b1_111111_1_0000000000000000000_00000;
pub const CBZ_MASKED: u32 = 0b0_011010_0_0000000000000000000_00000;

// 32-bit CMP, immediate.
pub const CMP_MASK: u32 = 0b1_1_1_11111_00_000000000000_00000_00000;
pub const CMP_MASKED: u32 = 0b0_1_1_10001_00_000000000000_00000_00000;

// B.cond conditional jump.
pub const BCS_MASK: u32 = 0b1111111_1_0000000000000000000_1_1111;
pub const BCS_MASKED: u32 = 0b0101010_0_0000000000000000000_0_0010;

/// A 32-bit ARM64 instruction word classified into one of the forms the
/// scanner recognizes, with the operand fields extracted from the encoding.
/// `Mov` and `Bl` exist for consumers that build such values themselves;
/// the decoder never produces them. A word matching no recognized form is
/// carried verbatim in `Unk`.
#[derive(Clone, Copy, PartialEq, Eq, Structural, Debug)]
#[allow(inconsistent_fields)]
pub enum Instruction {
    Ldr { imm: u16, rn: u8, rt: u8 },
    Add { shift: u8, imm: u16, rn: u8, rd: u8 },
    Adrp { imm: u32, rd: u8 },
    Ldur { imm: u16, rn: u8, rt: u8 },
    Ldrb { imm: u16, rn: u8, rt: u8 },
    Sub { shift: u8, imm: u16, rn: u8, rd: u8 },
    And { imm: u16, rn: u8, rd: u8 },
    Mov { imm: u8, rm: u8, rn: u8, rd: u8 },
    Bl { imm: u32 },
    Ldrsw { imm: u16, rn: u8, rt: u8 },
    Cbz { imm: u32, rt: u8 },
    Cmp { shift: u8, imm: u16, rn: u8 },
    BCs { imm: u32, cond: u8 },
    Unk(u32),
}

pub open spec fn is_ldr(w: u32) -> bool {
    w & LDR_MASK == LDR_MASKED
}

pub open spec fn is_add(w: u32) -> bool {
    w & ADD_MASK == ADD_MASKED
}

pub open spec fn is_adrp(w: u32) -> bool {
    w & ADRP_MASK == ADRP_MASKED
}

pub open spec fn is_ldur(w: u32) -> bool {
    w & LDUR_MASK == LDUR_MASKED
}

pub open spec fn is_ldrb(w: u32) -> bool {
    w & LDRB_MASK == LDRB_MASKED
}

pub open spec fn is_sub(w: u32) -> bool {
    w & SUB_MASK == SUB_MASKED
}

pub open spec fn is_and(w: u32) -> bool {
    w & AND_MASK == AND_MASKED
}

pub open spec fn is_ldrsw(w: u32) -> bool {
    w & LDRSW_MASK == LDRSW_MASKED
}

pub open spec fn is_cbz(w: u32) -> bool {
    w & CBZ_MASK == CBZ_MASKED
}

pub open spec fn is_cmp(w: u32) -> bool {
    w & CMP_MASK == CMP_MASKED
}

pub open spec fn is_bcs(w: u32) -> bool {
    w & BCS_MASK == BCS_MASKED
}

/// True when `w` matches none of the recognized instruction forms, so the
/// decoder returns it verbatim as `Unk`.
pub open spec fn is_unrecognized(w: u32) -> bool {
    &&& !is_ldr(w)
    &&& !is_add(w)
    &&& !is_adrp(w)
    &&& !is_ldur(w)
    &&& !is_ldrb(w)
    &&& !is_sub(w)
    &&& !is_and(w)
    &&& !is_cbz(w)
    &&& !is_cmp(w)
    &&& !is_bcs(w)
    &&& !is_ldrsw(w)
}

/// The ADRP immediate: `immhi` (19 bits) and `immlo` (2 bits) reassembled
/// as a byte offset, `(immhi << 14) + (immlo << 12)`.
pub open spec fn adrp_imm_of(w: u32) -> u32 {
    ((((w >> 5) & 0x7FFFF) << 14) + (((w >> 29) & 0x3) << 12)) as u32
}

/// The AND immediate: `imms` and `immr` (6 bits each) packed as
/// `(imms << 6) + immr`.
pub open spec fn and_imm_of(w: u32) -> u16 {
    ((((w >> 10) & 0x3F) << 6) + ((w >> 16) & 0x3F)) as u16
}

pub open spec fn decode_ldr(w: u32) -> Instruction {
    Instruction::Ldr {
        imm: ((w >> 10) & 0xFFF) as u16,
        rn: ((w >> 5) & 0x1F) as u8,
        rt: (w & 0x1F) as u8,
    }
}

pub open spec fn decode_add(w: u32) -> Instruction {
    Instruction::Add {
        shift: ((w >> 22) & 0x3) as u8,
        imm: ((w >> 10) & 0xFFF) as u16,
        rn: ((w >> 5) & 0x1F) as u8,
        rd: (w & 0x1F) as u8,
    }
}

pub open spec fn decode_adrp(w: u32) -> Instruction {
    Instruction::Adrp { imm: adrp_imm_of(w), rd: (w & 0x1F) as u8 }
}

pub open spec fn decode_ldur(w: u32) -> Instruction {
    Instruction::Ldur {
        imm: ((w >> 12) & 0x1FF) as u16,
        rn: ((w >> 5) & 0x1F) as u8,
        rt: (w & 0x1F) as u8,
    }
}

pub open spec fn decode_ldrb(w: u32) -> Instruction {
    Instruction::Ldrb {
        imm: ((w >> 10) & 0xFFF) as u16,
        rn: ((w >> 5) & 0x1F) as u8,
        rt: (w & 0x1F) as u8,
    }
}

pub open spec fn decode_sub(w: u32) -> Instruction {
    Instruction::Sub {
        shift: ((w >> 22) & 0x3) as u8,
        imm: ((w >> 10) & 0xFFF) as u16,
        rn: ((w >> 5) & 0x1F) as u8,
        rd: (w & 0x1F) as u8,
    }
}

pub open spec fn decode_and(w: u32) -> Instruction {
    Instruction::And {
        imm: and_imm_of(w),
        rn: ((w >> 5) & 0x1F) as u8,
        rd: (w & 0x1F) as u8,
    }
}

pub open spec fn decode_ldrsw(w: u32) -> Instruction {
    Instruction::Ldrsw {
        imm: ((w >> 10) & 0xFFF) as u16,
        rn: ((w >> 5) & 0x1F) as u8,
        rt: (w & 0x1F) as u8,
    }
}

pub open spec fn decode_cbz(w: u32) -> Instruction {
    Instruction::Cbz { imm: (w >> 5) & 0x7FFFF, rt: (w & 0x1F) as u8 }
}

pub open spec fn decode_cmp(w: u32) -> Instruction {
    Instruction::Cmp {
        shift: ((w >> 22) & 0x3) as u8,
        imm: ((w >> 10) & 0xFFF) as u16,
        rn: ((w >> 5) & 0x1F) as u8,
    }
}

pub open spec fn decode_bcs(w: u32) -> Instruction {
    Instruction::BCs { imm: (w >> 5) & 0x7FFFF, cond: (w & 0xF) as u8 }
}

/// What the decoder returns for `w`: the first matching form in priority
/// order (Ldr, Add, Adrp, Ldur, Ldrb, Sub, And, Cbz, Cmp, BCs, Ldrsw), or
/// `Unk(w)` when none matches. The order matters: some masks subsume
/// others, so a different order would classify some words differently.
pub open spec fn decode_spec(w: u32) -> Instruction {
    if is_ldr(w) {
        decode_ldr(w)
    } else if is_add(w) {
        decode_add(w)
    } else if is_adrp(w) {
        decode_adrp(w)
    } else if is_ldur(w) {
        decode_ldur(w)
    } else if is_ldrb(w) {
        decode_ldrb(w)
    } else if is_sub(w) {
        decode_sub(w)
    } else if is_and(w) {
        decode_and(w)
    } else if is_cbz(w) {
        decode_cbz(w)
    } else if is_cmp(w) {
        decode_cmp(w)
    } else if is_bcs(w) {
        decode_bcs(w)
    } else if is_ldrsw(w) {
        decode_ldrsw(w)
    } else {
        Instruction::Unk(w)
    }
}

/// Decoding is total and classifies by the first matching form in the
/// fixed priority order: a word matching a form (and none before it in
/// the order) decodes to that form with the operand fields at the shift
/// and mask positions the ARM64 encoding gives them, and a word matching
/// no form at all is returned verbatim as `Unk` — exactly then.
pub proof fn lemma_decode_total(w: u32)
    ensures
        is_ldr(w) ==> decode_spec(w) == (Instruction::Ldr {
            imm: ((w >> 10) & 0xFFF) as u16,
            rn: ((w >> 5) & 0x1F) as u8,
            rt: (w & 0x1F) as u8,
        }),
        !is_ldr(w) && is_add(w) ==> decode_spec(w) == (Instruction::Add {
            shift: ((w >> 22) & 0x3) as u8,
            imm: ((w >> 10) & 0xFFF) as u16,
            rn: ((w >> 5) & 0x1F) as u8,
            rd: (w & 0x1F) as u8,
        }),
        !is_ldr(w) && !is_add(w) && is_adrp(w) ==> decode_spec(w) == (Instruction::Adrp {
            imm: ((((w >> 5) & 0x7FFFF) << 14) + (((w >> 29) & 0x3) << 12)) as u32,
            rd: (w & 0x1F) as u8,
        }),
        !is_ldr(w) && !is_add(w) && !is_adrp(w) && is_ldur(w) ==> decode_spec(w)
            == (Instruction::Ldur {
            imm: ((w >> 12) & 0x1FF) as u16,
            rn: ((w >> 5) & 0x1F) as u8,
            rt: (w & 0x1F) as u8,
        }),
        !is_ldr(w) && !is_add(w) && !is_adrp(w) && !is_ldur(w) && is_ldrb(w) ==> decode_spec(w)
            == (Instruction::Ldrb {
            imm: ((w >> 10) & 0xFFF) as u16,
            rn: ((w >> 5) & 0x1F) as u8,
            rt: (w & 0x1F) as u8,
        }),
        !is_ldr(w) && !is_add(w) && !is_adrp(w) && !is_ldur(w) && !is_ldrb(w) && is_sub(w)
            ==> decode_spec(w) == (Instruction::Sub {
            shift: ((w >> 22) & 0x3) as u8,
            imm: ((w >> 10) & 0xFFF) as u16,
            rn: ((w >> 5) & 0x1F) as u8,
            rd: (w & 0x1F) as u8,
        }),
        !is_ldr(w) && !is_add(w) && !is_adrp(w) && !is_ldur(w) && !is_ldrb(w) && !is_sub(w)
            && is_and(w) ==> decode_spec(w) == (Instruction::And {
            imm: ((((w >> 10) & 0x3F) << 6) + ((w >> 16) & 0x3F)) as u16,
            rn: ((w >> 5) & 0x1F) as u8,
            rd: (w & 0x1F) as u8,
        }),
        !is_ldr(w) && !is_add(w) && !is_adrp(w) && !is_ldur(w) && !is_ldrb(w) && !is_sub(w)
            && !is_and(w) && is_cbz(w) ==> decode_spec(w) == (Instruction::Cbz {
            imm: (w >> 5) & 0x7FFFF,
            rt: (w & 0x1F) as u8,
        }),
        !is_ldr(w) && !is_add(w) && !is_adrp(w) && !is_ldur(w) && !is_ldrb(w) && !is_sub(w)
            && !is_and(w) && !is_cbz(w) && is_cmp(w) ==> decode_spec(w) == (Instruction::Cmp {
            shift: ((w >> 22) & 0x3) as u8,
            imm: ((w >> 10) & 0xFFF) as u16,
            rn: ((w >> 5) & 0x1F) as u8,
        }),
        !is_ldr(w) && !is_add(w) && !is_adrp(w) && !is_ldur(w) && !is_ldrb(w) && !is_sub(w)
            && !is_and(w) && !is_cbz(w) && !is_cmp(w) && is_bcs(w) ==> decode_spec(w)
            == (Instruction::BCs { imm: (w >> 5) & 0x7FFFF, cond: (w & 0xF) as u8 }),
        !is_ldr(w) && !is_add(w) && !is_adrp(w) && !is_ldur(w) && !is_ldrb(w) && !is_sub(w)
            && !is_and(w) && !is_cbz(w) && !is_cmp(w) && !is_bcs(w) && is_ldrsw(w)
            ==> decode_spec(w) == (Instruction::Ldrsw {
            imm: ((w >> 10) & 0xFFF) as u16,
            rn: ((w >> 5) & 0x1F) as u8,
            rt: (w & 0x1F) as u8,
        }),
        is_unrecognized(w) <==> decode_spec(w) == Instruction::Unk(w),
{
    if decode_spec(w) == Instruction::Unk(w) && !is_unrecognized(w) {
        assert(!(decode_spec(w) is Unk));
    }
}

impl Instruction {
    fn u32_as_ldr(val: u32) -> (r: Option<Self>)
        ensures
            r == (if is_ldr(val) {
                Some(decode_ldr(val))
            } else {
                None::<Instruction>
            }),
    {
        if val & LDR_MASK == LDR_MASKED {
            Some(Instruction::Ldr {
                imm: ((val >> 10) & 0xFFF) as u16,
                rn: ((val >> 5) & 0x1F) as u8,
                rt: (val & 0x1F) as u8,
            })
        } else {
            None
        }
    }

    fn u32_as_add(val: u32) -> (r: Option<Self>)
        ensures
            r == (if is_add(val) {
                Some(decode_add(val))
            } else {
                None::<Instruction>
            }),
    {
        if val & ADD_MASK == ADD_MASKED {
            Some(Instruction::Add {
                shift: ((val >> 22) & 0x3) as u8,
                imm: ((val >> 10) & 0xFFF) as u16,
                rn: ((val >> 5) & 0x1F) as u8,
                rd: (val & 0x1F) as u8,
            })
        } else {
            None
        }
    }

    fn u32_as_adrp(val: u32) -> (r: Option<Self>)
        ensures
            r == (if is_adrp(val) {
                Some(decode_adrp(val))
            } else {
                None::<Instruction>
            }),
    {
        if val & ADRP_MASK == ADRP_MASKED {
            Some(Instruction::Adrp { imm: adrp_get_imm(val), rd: (val & 0x1F) as u8 })
        } else {
            None
        }
    }

    fn u32_as_ldur(val: u32) -> (r: Option<Self>)
        ensures
            r == (if is_ldur(val) {
                Some(decode_ldur(val))
            } else {
                None::<Instruction>
            }),
    {
        if val & LDUR_MASK == LDUR_MASKED {
            Some(Instruction::Ldur {
                imm: ((val >> 12) & 0x1FF) as u16,
                rn: ((val >> 5) & 0x1F) as u8,
                rt: (val & 0x1F) as u8,
            })
        } else {
            None
        }
    }

    fn u32_as_ldrb(val: u32) -> (r: Option<Self>)
        ensures
            r == (if is_ldrb(val) {
                Some(decode_ldrb(val))
            } else {
                None::<Instruction>
            }),
    {
        if val & LDRB_MASK == LDRB_MASKED {
            Some(Instruction::Ldrb {
                imm: ((val >> 10) & 0xFFF) as u16,
                rn: ((val >> 5) & 0x1F) as u8,
                rt: (val & 0x1F) as u8,
            })
        } else {
            None
        }
    }

    fn u32_as_sub(val: u32) -> (r: Option<Self>)
        ensures
            r == (if is_sub(val) {
                Some(decode_sub(val))
            } else {
                None::<Instruction>
            }),
    {
        if val & SUB_MASK == SUB_MASKED {
            Some(Instruction::Sub {
                shift: ((val >> 22) & 0x3) as u8,
                imm: ((val >> 10) & 0xFFF) as u16,
                rn: ((val >> 5) & 0x1F) as u8,
                rd: (val & 0x1F) as u8,
            })
        } else {
            None
        }
    }

    fn u32_as_and(val: u32) -> (r: Option<Self>)
        ensures
            r == (if is_and(val) {
                Some(decode_and(val))
            } else {
                None::<Instruction>
            }),
    {
        if val & AND_MASK == AND_MASKED {
            let immr = (val >> 16) & 0x3F;
            let imms = (val >> 10) & 0x3F;
            proof {
                assert((val >> 10) & 0x3F <= 0x3F && (val >> 16) & 0x3F <= 0x3F
                    && ((val >> 10) & 0x3F) << 6 <= 0xFC0) by (bit_vector);
            }
            Some(Instruction::And {
                imm: ((imms << 6) + immr) as u16,
                rn: ((val >> 5) & 0x1F) as u8,
                rd: (val & 0x1F) as u8,
            })
        } else {
            None
        }
    }

    fn u32_as_cbz(val: u32) -> (r: Option<Self>)
        ensures
            r == (if is_cbz(val) {
                Some(decode_cbz(val))
            } else {
                None::<Instruction>
            }),
    {
        if val & CBZ_MASK == CBZ_MASKED {
            Some(Instruction::Cbz { imm: (val >> 5) & 0x7FFFF, rt: (val & 0x1F) as u8 })
        } else {
            None
        }
    }

    fn u32_as_ldrsw(val: u32) -> (r: Option<Self>)
        ensures
            r == (if is_ldrsw(val) {
                Some(decode_ldrsw(val))
            } else {
                None::<Instruction>
            }),
    {
        if val & LDRSW_MASK == LDRSW_MASKED {
            Some(Instruction::Ldrsw {
                imm: ((val >> 10) & 0xFFF) as u16,
                rn: ((val >> 5) & 0x1F) as u8,
                rt: (val & 0x1F) as u8,
            })
        } else {
            None
        }
    }

    fn u32_as_cmp(val: u32) -> (r: Option<Self>)
        ensures
            r == (if is_cmp(val) {
                Some(decode_cmp(val))
            } else {
                None::<Instruction>
            }),
    {
        if val & CMP_MASK == CMP_MASKED {
            Some(Instruction::Cmp {
                shift: ((val >> 22) & 0x3) as u8,
                imm: ((val >> 10) & 0xFFF) as u16,
                rn: ((val >> 5) & 0x1F) as u8,
            })
        } else {
            None
        }
    }

    fn u32_as_bcs(val: u32) -> (r: Option<Self>)
        ensures
            r == (if is_bcs(val) {
                Some(decode_bcs(val))
            } else {
                None::<Instruction>
            }),
    {
        if val & BCS_MASK == BCS_MASKED {
            Some(Instruction::BCs { imm: (val >> 5) & 0x7FFFF, cond: (val & 0xF) as u8 })
        } else {
            None
        }
    }

    /// Classify a raw instruction word. Total: every word decodes, and one
    /// that matches no recognized form comes back as `Unk(val)`.
    pub fn from_u32(val: u32) -> (r: Self)
        ensures
            r == decode_spec(val),
    {
        if let Some(i) = Self::u32_as_ldr(val) {
            return i;
        }
        if let Some(i) = Self::u32_as_add(val) {
            return i;
        }
        if let Some(i) = Self::u32_as_adrp(val) {
            return i;
        }
        if let Some(i) = Self::u32_as_ldur(val) {
            return i;
        }
        if let Some(i) = Self::u32_as_ldrb(val) {
            return i;
        }
        if let Some(i) = Self::u32_as_sub(val) {
            return i;
        }
        if let Some(i) = Self::u32_as_and(val) {
            return i;
        }
        if let Some(i) = Self::u32_as_cbz(val) {
            return i;
        }
        if let Some(i) = Self::u32_as_cmp(val) {
            return i;
        }
        if let Some(i) = Self::u32_as_bcs(val) {
            return i;
        }
        if let Some(i) = Self::u32_as_ldrsw(val) {
            return i;
        }
        Instruction::Unk(val)
    }
}

/// Extract the ADRP byte-offset immediate from a raw instruction word.
pub fn adrp_get_imm(instr: u32) -> (r: u32)
    ensures
        r == adrp_imm_of(instr),
{
    let immhi = (instr >> 5) & 0x7FFFF;
    let immlo = (instr >> 29) & 0x3;
    proof {
        assert(((instr >> 5) & 0x7FFFF) << 14 <= 0xFFFFC000 && ((instr >> 29) & 0x3) << 12
            <= 0x3000) by (bit_vector);
    }
    (immhi << 14) + (immlo << 12)
}

/// Extract the 12-bit ADD immediate from a raw instruction word.
pub fn add_get_imm(instr: u32) -> (r: u32)
    ensures
        r == (instr >> 10) & 0xFFF,
{
    (instr >> 10) & 0xFFF
}

/// Steps addresses through the text region, one 4-byte instruction word at
/// a time, from the text base up to (exclusively) the rodata base. The
/// bounds are taken fresh at construction, so a new iterator re-resolves
/// them. The caller reads the word at each address and decodes it with
/// [`Instruction::from_u32`].
pub struct TextIter {
    /// The next address to visit.
    pub cur: u64,
    /// The exclusive end of the region.
    pub end: u64,
}

impl TextIter {
    /// An iterator over `[text_base, rodata_base)`.
    pub fn new(text_base: u64, rodata_base: u64) -> (r: Self)
        ensures
            r.cur == text_base,
            r.end == rodata_base,
    {
        TextIter { cur: text_base, end: rodata_base }
    }

    /// The next instruction address, or `None` once the region is
    /// exhausted. Advances by 4 bytes, clamping at the region end.
    pub fn next_addr(&mut self) -> (r: Option<u64>)
        ensures
            old(self).cur < old(self).end ==> {
                &&& r == Some(old(self).cur)
                &&& final(self).end == old(self).end
                &&& final(self).cur == (if old(self).end - old(self).cur < 4 {
                    old(self).end
                } else {
                    (old(self).cur + 4) as u64
                })
            },
            old(self).cur >= old(self).end ==> r is None && *final(self) == *old(self),
    {
        if self.cur < self.end {
            let r = self.cur;
            if self.end - self.cur < 4 {
                self.cur = self.end;
            } else {
                self.cur = self.cur + 4;
            }
            Some(r)
        } else {
            None
        }
    }
}

/// Decode a snapshot of consecutive instruction words captured at
/// `text_base`: the word at index `i` sits at address `text_base + 4 * i`.
pub fn scan(text_base: u64, words: &Vec<u32>) -> (r: Vec<(u64, Instruction)>)
    requires
        text_base + 4 * words@.len() <= u64::MAX,
    ensures
        r@.len() == words@.len(),
        forall|i: int|
            0 <= i < words@.len() ==> #[trigger] r@[i].0 == text_base + 4 * i && r@[i].1
                == decode_spec(words@[i]),
{
    let mut r: Vec<(u64, Instruction)> = Vec::new();
    let mut idx: usize = 0;
    while idx < words.len()
        invariant
            idx <= words@.len(),
            text_base + 4 * words@.len() <= u64::MAX,
            r@.len() == idx,
            forall|i: int|
                0 <= i < idx ==> #[trigger] r@[i].0 == text_base + 4 * i && r@[i].1 == decode_spec(
                    words@[i],
                ),
        decreases words@.len() - idx,
    {
        let addr: u64 = text_base + 4 * (idx as u64);
        r.push((addr, Instruction::from_u32(words[idx])));
        idx = idx + 1;
    }
    r
}

} // verus!
