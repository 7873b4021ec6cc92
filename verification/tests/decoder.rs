use skyline::text_iter::{add_get_imm, adrp_get_imm, Instruction, TextIter};

// 64-bit LDR unsigned offset: LDR x1, [x1, #8] -> 0xF9400421
#[test]
fn decode_ldr() {
    let i = Instruction::from_u32(0xF940_0421);
    assert_eq!(i, Instruction::Ldr { imm: 1, rn: 1, rt: 1 });
}

#[test]
fn decode_ldr_fields() {
    // imm12 = 0xABC, rn = 0b00111, rt = 0b10101
    let w = 0xF940_0000u32 | (0xABC << 10) | (0b00111 << 5) | 0b10101;
    let i = Instruction::from_u32(w);
    assert_eq!(i, Instruction::Ldr { imm: 0xABC, rn: 0b00111, rt: 0b10101 });
}

// 64-bit ADD immediate: ADD x2, x3, #42 -> 0x9100A862
#[test]
fn decode_add() {
    let w = 0x9100_0000u32 | (42 << 10) | (3 << 5) | 2;
    let i = Instruction::from_u32(w);
    assert_eq!(i, Instruction::Add { shift: 0, imm: 42, rn: 3, rd: 2 });
}

#[test]
fn decode_add_with_shift() {
    let w = 0x9100_0000u32 | (1 << 22) | (7 << 10) | (1 << 5) | 0;
    let i = Instruction::from_u32(w);
    assert_eq!(i, Instruction::Add { shift: 1, imm: 7, rn: 1, rd: 0 });
}

// ADRP x5, with immhi = 3, immlo = 2: base 0x90000000,
// imm reassembles as (immhi << 14) + (immlo << 12).
#[test]
fn decode_adrp() {
    let w = 0x9000_0000u32 | (2 << 29) | (3 << 5) | 5;
    let i = Instruction::from_u32(w);
    assert_eq!(i, Instruction::Adrp { imm: (3 << 14) + (2 << 12), rd: 5 });
}

#[test]
fn adrp_imm_helper_matches_decode() {
    let w = 0x9000_0000u32 | (1 << 29) | (0x7FFFF << 5) | 9;
    assert_eq!(adrp_get_imm(w), ((0x7FFFFu32 << 14) as u32).wrapping_add(1 << 12));
    match Instruction::from_u32(w) {
        Instruction::Adrp { imm, rd } => {
            assert_eq!(imm, adrp_get_imm(w));
            assert_eq!(rd, 9);
        }
        other => panic!("expected Adrp, got {:?}", other),
    }
}

#[test]
fn add_imm_helper() {
    let w = 0x9100_0000u32 | (0xFFF << 10);
    assert_eq!(add_get_imm(w), 0xFFF);
}

// LDUR x1, [x2, #-8]: pattern 0xF8400000 group with imm9 = 0x1F8
#[test]
fn decode_ldur() {
    let w = 0xF840_0000u32 | (0x1F8 << 12) | (2 << 5) | 1;
    assert_eq!(w, 0xF85F_8041);
    let i = Instruction::from_u32(w);
    assert_eq!(i, Instruction::Ldur { imm: 0x1F8, rn: 2, rt: 1 });
}

// LDRB w3, [x4, #5]: pattern 0x39400000
#[test]
fn decode_ldrb() {
    let w = 0x3940_0000u32 | (5 << 10) | (4 << 5) | 3;
    let i = Instruction::from_u32(w);
    assert_eq!(i, Instruction::Ldrb { imm: 5, rn: 4, rt: 3 });
}

// 32-bit SUB immediate: SUB w1, w2, #9 -> pattern 0x51000000
#[test]
fn decode_sub() {
    let w = 0x5100_0000u32 | (9 << 10) | (2 << 5) | 1;
    let i = Instruction::from_u32(w);
    assert_eq!(i, Instruction::Sub { shift: 0, imm: 9, rn: 2, rd: 1 });
}

// 32-bit AND immediate: pattern 0x12000000, imm packs (imms << 6) + immr
#[test]
fn decode_and() {
    let w = 0x1200_0000u32 | (0x15 << 16) | (0x2A << 10) | (6 << 5) | 7;
    let i = Instruction::from_u32(w);
    assert_eq!(i, Instruction::And { imm: (0x2A << 6) + 0x15, rn: 6, rd: 7 });
}

// 32-bit CBZ: pattern 0x34000000
#[test]
fn decode_cbz() {
    let w = 0x3400_0000u32 | (0x1234 << 5) | 8;
    let i = Instruction::from_u32(w);
    assert_eq!(i, Instruction::Cbz { imm: 0x1234, rt: 8 });
}

// 32-bit CMP immediate: pattern 0x71000000 with rd = 0b11111
#[test]
fn decode_cmp() {
    let w = 0x7100_0000u32 | (77 << 10) | (9 << 5) | 0b11111;
    let i = Instruction::from_u32(w);
    assert_eq!(i, Instruction::Cmp { shift: 0, imm: 77, rn: 9 });
}

// B.cond: pattern 0x54000002 (cond = 0b0010, bit 4 clear)
#[test]
fn decode_bcond() {
    let w = 0x5400_0000u32 | (0x999 << 5) | 0b0010;
    let i = Instruction::from_u32(w);
    assert_eq!(i, Instruction::BCs { imm: 0x999, cond: 0b0010 });
}

// 64-bit LDRSW unsigned offset: pattern 0xB9800000
#[test]
fn decode_ldrsw() {
    let w = 0xB980_0000u32 | (0x10 << 10) | (11 << 5) | 12;
    let i = Instruction::from_u32(w);
    assert_eq!(i, Instruction::Ldrsw { imm: 0x10, rn: 11, rt: 12 });
}

// Words matching no pattern come back verbatim; decoding is total.
#[test]
fn decode_unknown_verbatim() {
    for &w in &[0u32, 0xd503201f, 0x14000000, 0x94000000, 0xFFFFFFFF] {
        assert_eq!(Instruction::from_u32(w), Instruction::Unk(w));
    }
}

#[test]
fn decode_never_panics_on_sweep() {
    // a coarse sweep across the word space
    let mut w: u32 = 0;
    loop {
        let _ = Instruction::from_u32(w);
        match w.checked_add(0x0010_0301) {
            Some(next) => w = next,
            None => break,
        }
    }
}

// The priority order matters: a word matching both CMP and a later
// pattern must decode as the earlier form.
#[test]
fn decode_priority_first_match_wins() {
    // SUB pattern with rd=0b11111 would also look like nothing else;
    // CMP (0x7100...) vs SUB (0x5100...) differ in bit 29, so build a
    // word matching ADD (priority 2) and check it is not misread.
    let w = 0x9100_0000u32;
    assert_eq!(
        Instruction::from_u32(w),
        Instruction::Add { shift: 0, imm: 0, rn: 0, rd: 0 }
    );
}

#[test]
fn text_iter_steps_by_four() {
    let mut it = TextIter::new(0x1000, 0x1010);
    assert_eq!(it.next_addr(), Some(0x1000));
    assert_eq!(it.next_addr(), Some(0x1004));
    assert_eq!(it.next_addr(), Some(0x1008));
    assert_eq!(it.next_addr(), Some(0x100C));
    assert_eq!(it.next_addr(), None);
    assert_eq!(it.next_addr(), None);
}

#[test]
fn text_iter_empty_region() {
    let mut it = TextIter::new(0x2000, 0x2000);
    assert_eq!(it.next_addr(), None);
}

#[test]
fn text_iter_ragged_end() {
    let mut it = TextIter::new(0x3000, 0x3006);
    assert_eq!(it.next_addr(), Some(0x3000));
    assert_eq!(it.next_addr(), Some(0x3004));
    assert_eq!(it.next_addr(), None);
}

#[test]
fn scan_decodes_snapshot() {
    let words = vec![0xF940_0421u32, 0xd503_201f];
    let out = skyline::text_iter::scan(0x7100_0000, &words);
    assert_eq!(out.len(), 2);
    assert_eq!(out[0].0, 0x7100_0000);
    assert_eq!(out[0].1, Instruction::Ldr { imm: 1, rn: 1, rt: 1 });
    assert_eq!(out[1].0, 0x7100_0004);
    assert_eq!(out[1].1, Instruction::Unk(0xd503_201f));
}
