//! CPU and SIMD register values as seen by inline hooks.
//!
//! An inline hook receives a snapshot of the host thread's register state
//! ([`crate::hooks::InlineCtx`]). These types give typed access to the
//! 64-bit general-purpose registers and the 128-bit SIMD registers; the
//! narrower views are overlapping lanes of the same underlying bits.

use vstd::prelude::*;

verus! {

/// One Aarch64 general-purpose register: 64 bits, with the 32-bit `w`/`r`
/// views reading and writing the low half.
#[derive(Clone, Copy, PartialEq, Eq, Structural, Debug)]
pub struct CpuRegister(pub u64);

impl CpuRegister {
    /// The full 64-bit value.
    pub open spec fn spec_x(self) -> u64 {
        self.0
    }

    /// A register holding `x`.
    pub fn new(x: u64) -> (r: Self)
        ensures
            r.spec_x() == x,
    {
        CpuRegister(x)
    }

    /// Returns the Aarch64 64-bit representation of this register.
    pub fn x(self) -> (r: u64)
        ensures
            r == self.spec_x(),
    {
        self.0
    }

    /// Returns the Aarch64 32-bit representation (the low half) of this
    /// register. Equivalent to [`CpuRegister::r`].
    pub fn w(self) -> (r: u32)
        ensures
            r == (self.spec_x() & 0xFFFF_FFFF) as u32,
    {
        (self.0 & 0xFFFF_FFFF) as u32
    }

    /// Returns the Aarch32 32-bit representation of this register.
    /// Equivalent to [`CpuRegister::w`].
    pub fn r(self) -> (r: u32)
        ensures
            r == (self.spec_x() & 0xFFFF_FFFF) as u32,
    {
        self.w()
    }

    /// Sets the full 64-bit value.
    pub fn set_x(&mut self, x: u64)
        ensures
            final(self).spec_x() == x,
    {
        self.0 = x;
    }

    /// Sets the register to the 32-bit value `w`, clearing the high half.
    /// Equivalent to [`CpuRegister::set_r`].
    pub fn set_w(&mut self, w: u32)
        ensures
            final(self).spec_x() == w,
    {
        self.0 = w as u64;
    }

    /// Sets the register to the 32-bit value `r`, clearing the high half.
    /// Equivalent to [`CpuRegister::set_w`].
    pub fn set_r(&mut self, r: u32)
        ensures
            final(self).spec_x() == r,
    {
        self.set_w(r);
    }
}

/// One Aarch64 SIMD register viewed as 128 bits of overlapping lanes.
/// Shares its storage layout with [`FpuRegister`], which only ever refers
/// to the first lane.
#[derive(Clone, Copy, PartialEq, Eq, Structural, Debug)]
pub struct VectorRegister(pub u128);

impl VectorRegister {
    /// The full 128-bit value.
    pub open spec fn spec_v(self) -> u128 {
        self.0
    }

    /// A register holding `v`.
    pub fn new(v: u128) -> (r: Self)
        ensures
            r.spec_v() == v,
    {
        VectorRegister(v)
    }

    /// Returns the 128-bit representation of this register.
    pub fn v(self) -> (r: u128)
        ensures
            r == self.spec_v(),
    {
        self.0
    }

    /// Sets all 128 bits of the vector register.
    pub fn set_v(&mut self, v: u128)
        ensures
            final(self).spec_v() == v,
    {
        self.0 = v;
    }

    /// The 16-bit lane at `index`: bits `[16 * index + 15 : 16 * index]`.
    pub open spec fn lane16(self, index: int) -> u16 {
        ((self.0 >> (16 * index)) & 0xFFFF) as u16
    }

    /// The 8-bit lane at `index`: bits `[8 * index + 7 : 8 * index]`.
    pub open spec fn lane8(self, index: int) -> u8 {
        ((self.0 >> (8 * index)) & 0xFF) as u8
    }

    /// Returns the eight 16-bit lanes of this register.
    pub fn h(self) -> (r: [u16; 8])
        ensures
            forall|i: int| 0 <= i < 8 ==> r[i] == self.lane16(i),
    {
        let r = [
            (self.0 & 0xFFFF) as u16,
            ((self.0 >> 16) & 0xFFFF) as u16,
            ((self.0 >> 32) & 0xFFFF) as u16,
            ((self.0 >> 48) & 0xFFFF) as u16,
            ((self.0 >> 64) & 0xFFFF) as u16,
            ((self.0 >> 80) & 0xFFFF) as u16,
            ((self.0 >> 96) & 0xFFFF) as u16,
            ((self.0 >> 112) & 0xFFFF) as u16,
        ];
        proof {
            let v = self.0;
            assert(v >> 0 == v) by (bit_vector);
            assert forall|i: int| 0 <= i < 8 implies r[i] == self.lane16(i) by {
                assert(r[0] == self.lane16(0) && r[1] == self.lane16(1) && r[2] == self.lane16(2)
                    && r[3] == self.lane16(3) && r[4] == self.lane16(4) && r[5] == self.lane16(5)
                    && r[6] == self.lane16(6) && r[7] == self.lane16(7));
            }
        }
        r
    }

    /// Returns the sixteen 8-bit lanes of this register.
    pub fn b(self) -> (r: [u8; 16])
        ensures
            forall|i: int| 0 <= i < 16 ==> r[i] == self.lane8(i),
    {
        let r = [
            (self.0 & 0xFF) as u8,
            ((self.0 >> 8) & 0xFF) as u8,
            ((self.0 >> 16) & 0xFF) as u8,
            ((self.0 >> 24) & 0xFF) as u8,
            ((self.0 >> 32) & 0xFF) as u8,
            ((self.0 >> 40) & 0xFF) as u8,
            ((self.0 >> 48) & 0xFF) as u8,
            ((self.0 >> 56) & 0xFF) as u8,
            ((self.0 >> 64) & 0xFF) as u8,
            ((self.0 >> 72) & 0xFF) as u8,
            ((self.0 >> 80) & 0xFF) as u8,
            ((self.0 >> 88) & 0xFF) as u8,
            ((self.0 >> 96) & 0xFF) as u8,
            ((self.0 >> 104) & 0xFF) as u8,
            ((self.0 >> 112) & 0xFF) as u8,
            ((self.0 >> 120) & 0xFF) as u8,
        ];
        proof {
            let v = self.0;
            assert(v >> 0 == v) by (bit_vector);
            assert forall|i: int| 0 <= i < 16 implies r[i] == self.lane8(i) by {
                assert(r[0] == self.lane8(0) && r[1] == self.lane8(1) && r[2] == self.lane8(2)
                    && r[3] == self.lane8(3) && r[4] == self.lane8(4) && r[5] == self.lane8(5)
                    && r[6] == self.lane8(6) && r[7] == self.lane8(7) && r[8] == self.lane8(8)
                    && r[9] == self.lane8(9) && r[10] == self.lane8(10) && r[11] == self.lane8(11)
                    && r[12] == self.lane8(12) && r[13] == self.lane8(13) && r[14] == self.lane8(
                    14,
                ) && r[15] == self.lane8(15));
            }
        }
        r
    }

    /// Sets the 16-bit lane at `index`, leaving the other lanes
    /// unmodified.
    pub fn set_h(&mut self, index: usize, h: u16)
        requires
            index < 8,
        ensures
            final(self).spec_v() == (old(self).spec_v() & !(0xFFFFu128 << (16 * index))) | ((
            h as u128) << (16 * index)),
    {
        let shift = 16 * index;
        self.0 = (self.0 & !(0xFFFFu128 << shift)) | ((h as u128) << shift);
    }

    /// Sets the 8-bit lane at `index`, leaving the other lanes
    /// unmodified.
    pub fn set_b(&mut self, index: usize, b: u8)
        requires
            index < 16,
        ensures
            final(self).spec_v() == (old(self).spec_v() & !(0xFFu128 << (8 * index))) | ((
            b as u128) << (8 * index)),
    {
        let shift = 8 * index;
        self.0 = (self.0 & !(0xFFu128 << shift)) | ((b as u128) << shift);
    }
}

/// One Aarch64 floating-point register: the first lane of the
/// corresponding SIMD register. The integer-width views read and write the
/// low bits; the setters zero the rest of the register, as the hardware
/// does for scalar writes.
#[derive(Clone, Copy, PartialEq, Eq, Structural, Debug)]
pub struct FpuRegister(pub u128);

impl FpuRegister {
    /// The full 128-bit value.
    pub open spec fn spec_q(self) -> u128 {
        self.0
    }

    /// A register holding `q`.
    pub fn new(q: u128) -> (r: Self)
        ensures
            r.spec_q() == q,
    {
        FpuRegister(q)
    }

    /// Copies this register into a [`VectorRegister`].
    pub fn as_vec(self) -> (r: VectorRegister)
        ensures
            r.spec_v() == self.spec_q(),
    {
        VectorRegister(self.0)
    }

    /// Gets the 128-bit representation of this register.
    pub fn q(self) -> (r: u128)
        ensures
            r == self.spec_q(),
    {
        self.0
    }

    /// Gets the 16-bit representation (the low 16 bits) of this register.
    pub fn h(self) -> (r: u16)
        ensures
            r == (self.spec_q() & 0xFFFF) as u16,
    {
        (self.0 & 0xFFFF) as u16
    }

    /// Gets the 8-bit representation (the low 8 bits) of this register.
    pub fn b(self) -> (r: u8)
        ensures
            r == (self.spec_q() & 0xFF) as u8,
    {
        (self.0 & 0xFF) as u8
    }

    /// Sets all 128 bits of the register.
    pub fn set_q(&mut self, q: u128)
        ensures
            final(self).spec_q() == q,
    {
        self.0 = q;
    }

    /// Sets the first 16 bits of the register, zeroing the remaining bits.
    pub fn set_h(&mut self, h: u16)
        ensures
            final(self).spec_q() == h,
    {
        self.0 = h as u128;
    }

    /// Sets the first 8 bits of the register, zeroing the remaining bits.
    pub fn set_b(&mut self, b: u8)
        ensures
            final(self).spec_q() == b,
    {
        self.0 = b as u128;
    }
}

} // verus!
