use skyline::error::{Error, ErrorKind};
use skyline::patching::{Patch, PatchBuilder};

#[test]
fn nop_writes_exact_bytes() {
    let cmd = Patch::in_text(0x69, 0x7100_0000).nop();
    assert_eq!(cmd.addr, 0x7100_0069);
    assert_eq!(cmd.bytes, vec![0x1F, 0x20, 0x03, 0xD5]);
}

#[test]
fn cstr_appends_nul() {
    let cmd = Patch::in_data(0x69, 0x7200_0000).cstr("Ferris");
    assert_eq!(cmd.bytes.len(), 7);
    assert_eq!(cmd.bytes, b"Ferris\0".to_vec());
}

#[test]
fn cstr_empty_is_single_nul() {
    let cmd = PatchBuilder(0x1000).cstr("");
    assert_eq!(cmd.bytes, vec![0u8]);
}

#[test]
fn cstr_checked_fits_exactly() {
    let cmd = PatchBuilder(0x1000).cstr_checked("Ferris", 7).unwrap();
    assert_eq!(cmd.bytes, b"Ferris\0".to_vec());
}

#[test]
fn cstr_checked_too_long() {
    let r = PatchBuilder(0x1000).cstr_checked("Ferris", 6);
    assert_eq!(
        r.err(),
        Some(Error::Skyline { kind: ErrorKind::StringTooLong })
    );
    let r = PatchBuilder(0x1000).cstr_checked("", 0);
    assert!(r.is_err());
}

#[test]
fn bytes_verbatim() {
    let log_wide = [0xefu8, 0xbc, 0xac, 0xef, 0xbd, 0x8f, 0xef, 0xbd, 0x87, 0x00, 0x00];
    let cmd = PatchBuilder(0x2000).bytes(&log_wide);
    assert_eq!(cmd.addr, 0x2000);
    assert_eq!(cmd.bytes, log_wide.to_vec());
}

#[test]
fn data_u32_little_endian() {
    let cmd = PatchBuilder(0x3000).data_u32(0x1234_5678);
    assert_eq!(cmd.bytes, vec![0x78, 0x56, 0x34, 0x12]);
}

#[test]
fn data_u64_little_endian() {
    let cmd = PatchBuilder(0x3000).data_u64(0x1122_3344_5566_7788);
    assert_eq!(cmd.bytes, vec![0x88, 0x77, 0x66, 0x55, 0x44, 0x33, 0x22, 0x11]);
}

#[test]
fn section_builders_resolve_against_base() {
    assert_eq!(Patch::in_text(0x10, 0x1000).0, 0x1010);
    assert_eq!(Patch::in_data(0x10, 0x2000).0, 0x2010);
    assert_eq!(Patch::in_rodata(0x10, 0x3000).0, 0x3010);
    assert_eq!(Patch::in_bss(0x10, 0x4000).0, 0x4010);
    assert_eq!(Patch::in_heap(0x10, 0x5000).0, 0x5010);
    assert_eq!(Patch::at_offset(0x10).in_section(0x6000).0, 0x6010);
}

#[test]
fn apply_places_bytes_at_offset() {
    let mut region = vec![0xAAu8; 16];
    let cmd = PatchBuilder(0x1004).bytes(&[1, 2, 3]);
    cmd.apply_to(&mut region, 0x1000);
    assert_eq!(
        region,
        vec![0xAA, 0xAA, 0xAA, 0xAA, 1, 2, 3, 0xAA, 0xAA, 0xAA, 0xAA, 0xAA, 0xAA, 0xAA, 0xAA, 0xAA]
    );
}

// Writing the same bytes twice leaves the same contents as writing once.
#[test]
fn apply_twice_is_apply_once() {
    let base: u64 = 0x7100_0000;
    let cmd = PatchBuilder(base + 5).cstr("Ferris");
    let mut once = vec![0x55u8; 32];
    let mut twice = vec![0x55u8; 32];
    cmd.apply_to(&mut once, base);
    cmd.apply_to(&mut twice, base);
    cmd.apply_to(&mut twice, base);
    assert_eq!(once, twice);
}

#[test]
fn apply_at_region_edges() {
    let mut region = vec![0u8; 8];
    PatchBuilder(0x100).bytes(&[9]).apply_to(&mut region, 0x100);
    PatchBuilder(0x107).bytes(&[7]).apply_to(&mut region, 0x100);
    assert_eq!(region, vec![9, 0, 0, 0, 0, 0, 0, 7]);
}

#[test]
fn apply_full_region() {
    let mut region = vec![0u8; 4];
    Patch::in_rodata(0, 0x500).nop().apply_to(&mut region, 0x500);
    assert_eq!(region, vec![0x1F, 0x20, 0x03, 0xD5]);
}
