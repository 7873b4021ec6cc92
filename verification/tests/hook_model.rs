use skyline::error::{Error, ErrorKind, OsError, SwitchResult};
use skyline::hooks::{Hook, HookInfo, InstallAction, OriginalFunctionCell, Region};
use skyline::registers::{CpuRegister, FpuRegister, VectorRegister};
use skyline::text_iter::TextIter;

fn descriptor(
    replace: Option<u64>,
    offset: Option<u64>,
    symbol: Option<String>,
) -> Result<HookInfo, Error> {
    HookInfo::try_new(
        String::from("my_hook"),
        None,
        replace,
        offset,
        symbol,
        0,
        false,
    )
}

// Zero selectors must fail at construction and never reach install().
#[test]
fn descriptor_zero_selectors_fails() {
    let r = descriptor(None, None, None);
    assert_eq!(
        r.err(),
        Some(Error::Skyline { kind: ErrorKind::MalformedDescriptor })
    );
}

#[test]
fn descriptor_two_selectors_fails() {
    let r = descriptor(Some(0x1000), Some(0x20), None);
    assert_eq!(
        r.err(),
        Some(Error::Skyline { kind: ErrorKind::MalformedDescriptor })
    );
    let r = descriptor(None, Some(0x20), Some(String::from("sym")));
    assert!(r.is_err());
    let r = descriptor(Some(0x1000), Some(0x20), Some(String::from("sym")));
    assert!(r.is_err());
}

#[test]
fn descriptor_single_selector_ok() {
    assert!(descriptor(Some(0x1000), None, None).is_ok());
    assert!(descriptor(None, Some(0x20), None).is_ok());
    assert!(descriptor(None, None, Some(String::from("sym"))).is_ok());
}

#[test]
fn resolve_target_by_replace() {
    let info = descriptor(Some(0x7100_1234), None, None).unwrap();
    assert_eq!(info.resolve_target(0x7100_0000, 0), 0x7100_1234);
}

#[test]
fn resolve_target_by_offset() {
    let info = descriptor(None, Some(0x1234), None).unwrap();
    assert_eq!(info.resolve_target(0x7100_0000, 0), 0x7100_1234);
}

#[test]
fn resolve_target_by_symbol() {
    let info = descriptor(None, None, Some(String::from("sym"))).unwrap();
    assert_eq!(info.resolve_target(0x7100_0000, 0x7200_5678), 0x7200_5678);
}

#[test]
fn resolve_target_applies_pointer_offset() {
    let info = HookInfo::try_new(
        String::from("h"),
        None,
        Some(0x7100_1000),
        None,
        None,
        0x10,
        false,
    )
    .unwrap();
    assert_eq!(info.resolve_target(0, 0), 0x7100_1010);
    let back = HookInfo::try_new(
        String::from("h"),
        None,
        Some(0x7100_1000),
        None,
        None,
        -0x10,
        false,
    )
    .unwrap();
    assert_eq!(back.resolve_target(0, 0), 0x7100_0FF0);
}

#[test]
fn install_plans_function_hook() {
    let info = descriptor(None, Some(0x500), None).unwrap();
    let hook = Hook { ptr: 0x7300_0000, info };
    let action = hook.install(0x7100_0000, 0);
    assert_eq!(
        action,
        InstallAction::Function { target: 0x7100_0500, replacement: 0x7300_0000 }
    );
}

#[test]
fn install_plans_inline_hook() {
    let info = HookInfo::try_new(
        String::from("inline_hook"),
        Some(String::from("trace")),
        None,
        Some(0x500),
        None,
        0,
        true,
    )
    .unwrap();
    let hook = Hook { ptr: 0x7300_0000, info };
    let action = hook.install(0x7100_0000, 0);
    assert_eq!(
        action,
        InstallAction::Inline { target: 0x7100_0500, replacement: 0x7300_0000 }
    );
}

// The cell accepts exactly one write; a second is rejected and the first
// value stays.
#[test]
fn original_cell_set_once() {
    let mut cell = OriginalFunctionCell::new();
    assert_eq!(cell.get(), None);
    assert_eq!(cell.set(0x7100_2000), Ok(()));
    assert_eq!(cell.get(), Some(0x7100_2000));
    assert_eq!(cell.set(0x7100_3000), Err(0x7100_3000));
    assert_eq!(cell.get(), Some(0x7100_2000));
}

#[test]
fn switch_result_status() {
    assert_eq!(SwitchResult(0).ok(), Ok(()));
    assert_eq!(SwitchResult(0x2345).ok(), Err(OsError { code: 0x2345 }));
    assert_eq!(
        OsError { code: 9 }.into_error(),
        Error::Os(OsError { code: 9 })
    );
}

#[test]
fn regions_are_distinct() {
    let all = [Region::Text, Region::Rodata, Region::Data, Region::Bss, Region::Heap];
    for (i, a) in all.iter().enumerate() {
        for (j, b) in all.iter().enumerate() {
            assert_eq!(a == b, i == j);
        }
    }
}

#[test]
fn cpu_register_views() {
    let mut r = CpuRegister::new(0x1122_3344_5566_7788);
    assert_eq!(r.x(), 0x1122_3344_5566_7788);
    assert_eq!(r.w(), 0x5566_7788);
    assert_eq!(r.r(), 0x5566_7788);
    r.set_w(0xAABB_CCDD);
    assert_eq!(r.x(), 0xAABB_CCDD);
    r.set_x(u64::MAX);
    assert_eq!(r.w(), u32::MAX);
    r.set_r(1);
    assert_eq!(r.x(), 1);
}

#[test]
fn vector_register_views() {
    let mut v = VectorRegister::new(0x0102_0304_0506_0708_090A_0B0C_0D0E_0F10);
    assert_eq!(v.v(), 0x0102_0304_0506_0708_090A_0B0C_0D0E_0F10);
    v.set_v(7);
    assert_eq!(v.v(), 7);
}

#[test]
fn vector_register_lanes() {
    let v = VectorRegister::new(0x0102_0304_0506_0708_090A_0B0C_0D0E_0F10);
    assert_eq!(
        v.h(),
        [0x0F10, 0x0D0E, 0x0B0C, 0x090A, 0x0708, 0x0506, 0x0304, 0x0102]
    );
    assert_eq!(
        v.b(),
        [
            0x10, 0x0F, 0x0E, 0x0D, 0x0C, 0x0B, 0x0A, 0x09, 0x08, 0x07, 0x06, 0x05, 0x04, 0x03,
            0x02, 0x01
        ]
    );
}

#[test]
fn vector_register_lane_writes_leave_others() {
    let mut v = VectorRegister::new(0);
    v.set_h(1, 0xBEEF);
    v.set_h(7, 0xCAFE);
    assert_eq!(v.v(), (0xCAFEu128 << 112) | (0xBEEFu128 << 16));
    assert_eq!(v.h()[0], 0);
    assert_eq!(v.h()[1], 0xBEEF);
    assert_eq!(v.h()[7], 0xCAFE);
    v.set_b(6, 0x42);
    assert_eq!(v.b()[6], 0x42);
    assert_eq!(v.h()[1], 0xBEEF);
    // byte lane 2 overlaps the low half of 16-bit lane 1
    v.set_b(2, 0x11);
    assert_eq!(v.h()[1], 0xBE11);
    v.set_h(1, 0);
    assert_eq!(v.v(), (0xCAFEu128 << 112) | (0x42u128 << 48));
}

#[test]
fn fpu_register_views() {
    let mut f = FpuRegister::new(0xFFFF_FFFF_FFFF_FFFF_FFFF_FFFF_FFFF_FFFF);
    assert_eq!(f.q(), u128::MAX);
    assert_eq!(f.h(), 0xFFFF);
    assert_eq!(f.b(), 0xFF);
    assert_eq!(f.as_vec().v(), u128::MAX);
    f.set_h(0x1234);
    assert_eq!(f.q(), 0x1234);
    f.set_b(0x56);
    assert_eq!(f.q(), 0x56);
    f.set_q(1 << 100);
    assert_eq!(f.h(), 0);
}

#[test]
fn text_iter_fresh_bounds() {
    // constructing a new iterator re-resolves both bounds
    let mut a = TextIter::new(0x1000, 0x1008);
    let _ = a.next_addr();
    let mut b = TextIter::new(0x1000, 0x1008);
    assert_eq!(b.next_addr(), Some(0x1000));
}
