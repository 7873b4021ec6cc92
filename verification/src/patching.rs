//! Building byte patches and branch instructions for executable memory.
//!
//! Every patch reduces to one [`PatchCommand`]: an absolute target address
//! and the exact bytes to place there. The surrounding plumbing performs the
//! command through the native cross-process copy primitive and hands its
//! status word back as a [`crate::error::SwitchResult`]; this module decides
//! what to write and where, and [`PatchCommand::apply_to`] states the effect
//! of a performed write on the target bytes.
//!
//! [`BranchBuilder`] synthesizes ARM64 `B`/`BL` words. A branch reaches at
//! most ±128 MiB (a 26-bit word-granular immediate), so encoding is guarded
//! by that range check; [`lemma_branch_round_trip`] shows that the encoded
//! word passes through the instruction decoder unaltered and that the
//! destination address is recoverable from it.

use vstd::arithmetic::div_mod::{
    lemma_div_multiples_vanish,
    lemma_fundamental_div_mod,
    lemma_mod_multiples_vanish,
    lemma_small_mod,
};
use vstd::prelude::*;
use vstd::slice::slice_to_vec;
use vstd::string::StringSliceAdditionalSpecFns;

use crate::error::{Error, ErrorKind};
use crate::text_iter::{decode_spec, is_unrecognized, Instruction};

verus! {

/// The ARM64 NOP instruction word.
pub const NOP: u32 = 0xd503201f;

/// One mebibyte.
#[allow(non_upper_case_globals)]
pub const MiB: u64 = 0x100000;

/// How far a `B`/`BL` instruction reaches, in bytes, in either direction.
pub const BRANCH_RANGE: u64 = 128 * MiB;

/// The little-endian bytes of a 32-bit value.
pub open spec fn u32_le_bytes(v: u32) -> Seq<u8> {
    seq![
        (v & 0xFF) as u8,
        ((v >> 8) & 0xFF) as u8,
        ((v >> 16) & 0xFF) as u8,
        ((v >> 24) & 0xFF) as u8,
    ]
}

/// The little-endian bytes of a 64-bit value.
pub open spec fn u64_le_bytes(v: u64) -> Seq<u8> {
    seq![
        (v & 0xFF) as u8,
        ((v >> 8) & 0xFF) as u8,
        ((v >> 16) & 0xFF) as u8,
        ((v >> 24) & 0xFF) as u8,
        ((v >> 32) & 0xFF) as u8,
        ((v >> 40) & 0xFF) as u8,
        ((v >> 48) & 0xFF) as u8,
        ((v >> 56) & 0xFF) as u8,
    ]
}

/// `m` with the bytes `b` placed at position `at`: the effect of one
/// performed write on the target region's contents.
pub open spec fn overwrite(m: Seq<u8>, at: int, b: Seq<u8>) -> Seq<u8>
    recommends
        0 <= at,
        at + b.len() <= m.len(),
{
    Seq::new(m.len(), |i: int| if at <= i < at + b.len() { b[i - at] } else { m[i] })
}

/// Writing the same bytes twice at the same position leaves the same
/// contents as writing them once.
pub proof fn lemma_overwrite_idempotent(m: Seq<u8>, at: int, b: Seq<u8>)
    requires
        0 <= at,
        at + b.len() <= m.len(),
    ensures
        overwrite(overwrite(m, at, b), at, b) == overwrite(m, at, b),
{
    assert(overwrite(overwrite(m, at, b), at, b) =~= overwrite(m, at, b));
}

/// One write to perform: place `bytes` at the absolute address `addr`.
/// The native copy primitive checks nothing about the destination, so the
/// caller must not overrun the room available there, and must not issue
/// two commands with overlapping byte ranges concurrently.
pub struct PatchCommand {
    /// Absolute runtime address of the first byte to overwrite.
    pub addr: u64,
    /// The exact bytes to place there.
    pub bytes: Vec<u8>,
}

impl PatchCommand {
    /// Whether this command stays inside a region of `region_len` bytes
    /// based at `base`.
    pub open spec fn fits(self, base: u64, region_len: nat) -> bool {
        base <= self.addr && self.addr - base + self.bytes@.len() <= region_len
    }

    /// Perform this command against a snapshot of the target region:
    /// `mem` holds the region's bytes and `base` its runtime address.
    /// This is the reference semantics of the native copy primitive on a
    /// successful write, and what tests run commands against.
    pub fn apply_to(&self, mem: &mut Vec<u8>, base: u64)
        requires
            self.fits(base, old(mem)@.len()),
        ensures
            final(mem)@ == overwrite(old(mem)@, self.addr - base, self.bytes@),
    {
        let n = mem.len();
        assert(self.addr - base <= n);
        let off: usize = (self.addr - base) as usize;
        let mut i: usize = 0;
        while i < self.bytes.len()
            invariant
                self.fits(base, mem@.len()),
                off == self.addr - base,
                i <= self.bytes@.len(),
                mem@.len() == old(mem)@.len(),
                forall|j: int|
                    0 <= j < mem@.len() ==> mem@[j] == (if off <= j < off + i {
                        self.bytes@[j - off]
                    } else {
                        old(mem)@[j]
                    }),
            decreases self.bytes@.len() - i,
        {
            let b = self.bytes[i];
            let cur_len = mem.len();
            assert(off + i < cur_len);
            mem[off + i] = b;
            i = i + 1;
        }
        assert(mem@ =~= overwrite(old(mem)@, self.addr - base, self.bytes@));
    }
}

/// A constructor for [`PatchBuilder`]s: holds a byte offset and turns it
/// into an absolute patch target against a region base resolved by the
/// caller at the moment of use.
pub struct Patch(pub u64);

impl Patch {
    /// The absolute address `region_base + offset`.
    fn compute_address(offset: u64, region_base: u64) -> (r: u64)
        requires
            region_base != 0,
            region_base + offset <= u64::MAX,
        ensures
            r == region_base + offset,
    {
        region_base + offset
    }

    /// Work from the given byte offset. The offset is interpreted by the
    /// builder methods, which combine it with a region base.
    pub fn at_offset(offset: u64) -> (r: Self)
        ensures
            r.0 == offset,
    {
        Patch(offset)
    }

    /// A builder targeting this offset within the section whose base
    /// address is `region_base`, as the caller resolved it at this
    /// moment. A zero base means the section is absent; patching through
    /// it would corrupt unrelated memory, so it is excluded.
    pub fn in_section(self, region_base: u64) -> (r: PatchBuilder)
        requires
            region_base != 0,
            region_base + self.0 <= u64::MAX,
        ensures
            r.0 == region_base + self.0,
    {
        PatchBuilder(Self::compute_address(self.0, region_base))
    }

    /// A builder targeting `offset` in the text section, whose current
    /// base address is `text_base`.
    pub fn in_text(offset: u64, text_base: u64) -> (r: PatchBuilder)
        requires
            text_base != 0,
            text_base + offset <= u64::MAX,
        ensures
            r.0 == text_base + offset,
    {
        Patch::at_offset(offset).in_section(text_base)
    }

    /// A builder targeting `offset` in the data section, whose current
    /// base address is `data_base`.
    pub fn in_data(offset: u64, data_base: u64) -> (r: PatchBuilder)
        requires
            data_base != 0,
            data_base + offset <= u64::MAX,
        ensures
            r.0 == data_base + offset,
    {
        Patch::at_offset(offset).in_section(data_base)
    }

    /// A builder targeting `offset` in the rodata section, whose current
    /// base address is `rodata_base`.
    pub fn in_rodata(offset: u64, rodata_base: u64) -> (r: PatchBuilder)
        requires
            rodata_base != 0,
            rodata_base + offset <= u64::MAX,
        ensures
            r.0 == rodata_base + offset,
    {
        Patch::at_offset(offset).in_section(rodata_base)
    }

    /// A builder targeting `offset` in the bss section, whose current
    /// base address is `bss_base`.
    pub fn in_bss(offset: u64, bss_base: u64) -> (r: PatchBuilder)
        requires
            bss_base != 0,
            bss_base + offset <= u64::MAX,
        ensures
            r.0 == bss_base + offset,
    {
        Patch::at_offset(offset).in_section(bss_base)
    }

    /// A builder targeting `offset` in the heap, whose current base
    /// address is `heap_base`.
    pub fn in_heap(offset: u64, heap_base: u64) -> (r: PatchBuilder)
        requires
            heap_base != 0,
            heap_base + offset <= u64::MAX,
        ensures
            r.0 == heap_base + offset,
    {
        Patch::at_offset(offset).in_section(heap_base)
    }

    /// The write that replaces the instruction at this offset in the text
    /// section with a `b` to the instruction at `dest_offset`, both
    /// offsets relative to `text_base`. The destination must be within
    /// branch range of the source.
    pub fn branch_to(self, dest_offset: u64, text_base: u64) -> (cmd: PatchCommand)
        requires
            text_base != 0,
            text_base + self.0 <= u64::MAX,
            text_base + dest_offset <= u64::MAX,
            in_branch_range(word_disp(text_base + self.0, text_base + dest_offset)),
        ensures
            cmd.addr == text_base + self.0,
            cmd.bytes@ == u32_le_bytes(
                branch_word(BranchType::Branch, text_base + self.0, text_base + dest_offset),
            ),
    {
        BranchBuilder::branch().branch_offset(self.0).branch_to_offset(dest_offset).replace(
            text_base,
        )
    }

    /// Like [`Patch::branch_to`], with the destination offset relative to
    /// this patch's own offset instead of the start of the text section.
    pub fn branch_to_relative(self, dest_offset: u64, text_base: u64) -> (cmd: PatchCommand)
        requires
            text_base != 0,
            self.0 + dest_offset <= u64::MAX,
            text_base + self.0 <= u64::MAX,
            text_base + self.0 + dest_offset <= u64::MAX,
            in_branch_range(word_disp(text_base + self.0, text_base + self.0 + dest_offset)),
        ensures
            cmd.addr == text_base + self.0,
            cmd.bytes@ == u32_le_bytes(
                branch_word(
                    BranchType::Branch,
                    text_base + self.0,
                    text_base + self.0 + dest_offset,
                ),
            ),
    {
        BranchBuilder::branch().branch_offset(self.0).branch_to_offset(
            self.0 + dest_offset,
        ).replace(text_base)
    }

    /// The write that replaces the instruction at this offset in the text
    /// section with a `bl` to the instruction at `dest_offset`, both
    /// offsets relative to `text_base`.
    pub fn branch_link_to(self, dest_offset: u64, text_base: u64) -> (cmd: PatchCommand)
        requires
            text_base != 0,
            text_base + self.0 <= u64::MAX,
            text_base + dest_offset <= u64::MAX,
            in_branch_range(word_disp(text_base + self.0, text_base + dest_offset)),
        ensures
            cmd.addr == text_base + self.0,
            cmd.bytes@ == u32_le_bytes(
                branch_word(BranchType::BranchLink, text_base + self.0, text_base + dest_offset),
            ),
    {
        BranchBuilder::branch_link().branch_offset(self.0).branch_to_offset(dest_offset).replace(
            text_base,
        )
    }

    /// Like [`Patch::branch_link_to`], with the destination offset
    /// relative to this patch's own offset instead of the start of the
    /// text section.
    pub fn branch_link_to_relative(self, dest_offset: u64, text_base: u64) -> (cmd: PatchCommand)
        requires
            text_base != 0,
            self.0 + dest_offset <= u64::MAX,
            text_base + self.0 <= u64::MAX,
            text_base + self.0 + dest_offset <= u64::MAX,
            in_branch_range(word_disp(text_base + self.0, text_base + self.0 + dest_offset)),
        ensures
            cmd.addr == text_base + self.0,
            cmd.bytes@ == u32_le_bytes(
                branch_word(
                    BranchType::BranchLink,
                    text_base + self.0,
                    text_base + self.0 + dest_offset,
                ),
            ),
    {
        BranchBuilder::branch_link().branch_offset(self.0).branch_to_offset(
            self.0 + dest_offset,
        ).replace(text_base)
    }
}

/// Builds the write for one patch target: an absolute address, typically
/// obtained through [`Patch`].
pub struct PatchBuilder(pub u64);

impl PatchBuilder {
    /// The write that places the 32-bit value `val` at the target, in the
    /// architecture's little-endian byte order.
    pub fn data_u32(self, val: u32) -> (cmd: PatchCommand)
        ensures
            cmd.addr == self.0,
            cmd.bytes@ == u32_le_bytes(val),
    {
        let mut bytes: Vec<u8> = Vec::new();
        bytes.push((val & 0xFF) as u8);
        bytes.push(((val >> 8) & 0xFF) as u8);
        bytes.push(((val >> 16) & 0xFF) as u8);
        bytes.push(((val >> 24) & 0xFF) as u8);
        proof {
            assert(bytes@ =~= u32_le_bytes(val));
        }
        PatchCommand { addr: self.0, bytes }
    }

    /// The write that places the 64-bit value `val` at the target, in the
    /// architecture's little-endian byte order.
    pub fn data_u64(self, val: u64) -> (cmd: PatchCommand)
        ensures
            cmd.addr == self.0,
            cmd.bytes@ == u64_le_bytes(val),
    {
        let mut bytes: Vec<u8> = Vec::new();
        bytes.push((val & 0xFF) as u8);
        bytes.push(((val >> 8) & 0xFF) as u8);
        bytes.push(((val >> 16) & 0xFF) as u8);
        bytes.push(((val >> 24) & 0xFF) as u8);
        bytes.push(((val >> 32) & 0xFF) as u8);
        bytes.push(((val >> 40) & 0xFF) as u8);
        bytes.push(((val >> 48) & 0xFF) as u8);
        bytes.push(((val >> 56) & 0xFF) as u8);
        proof {
            assert(bytes@ =~= u64_le_bytes(val));
        }
        PatchCommand { addr: self.0, bytes }
    }

    /// The write that places the slice at the target, verbatim. There is
    /// no length check against the destination: what room the destination
    /// has cannot be known without disassembly, so staying within it is
    /// the caller's responsibility.
    pub fn bytes(self, val: &[u8]) -> (cmd: PatchCommand)
        ensures
            cmd.addr == self.0,
            cmd.bytes@ == val@,
    {
        PatchCommand { addr: self.0, bytes: slice_to_vec(val) }
    }

    /// The write that places `string` at the target as a C string: its
    /// UTF-8 bytes with a NUL terminator appended. Like
    /// [`PatchBuilder::bytes`], unchecked against the room available at
    /// the destination.
    pub fn cstr(self, string: &str) -> (cmd: PatchCommand)
        ensures
            cmd.addr == self.0,
            cmd.bytes@ == string.spec_bytes() + seq![0u8],
    {
        let mut bytes = slice_to_vec(string.as_bytes());
        bytes.push(0);
        proof {
            assert(bytes@ =~= string.spec_bytes() + seq![0u8]);
        }
        PatchCommand { addr: self.0, bytes }
    }

    /// Like [`PatchBuilder::cstr`], but bounded: refuses a string that
    /// does not fit in the `room` bytes known to be available at the
    /// target (terminator included), so a patch cannot corrupt what
    /// follows the destination. Use this where the destination's length
    /// is known, for instance from the string being replaced.
    pub fn cstr_checked(self, string: &str, room: usize) -> (r: Result<PatchCommand, Error>)
        ensures
            ({
                if string.spec_bytes().len() + 1 <= room {
                    &&& r matches Ok(cmd)
                    &&& cmd.addr == self.0
                    &&& cmd.bytes@ == string.spec_bytes() + seq![0u8]
                } else {
                    r == Err::<PatchCommand, Error>(
                        Error::Skyline { kind: ErrorKind::StringTooLong },
                    )
                }
            }),
    {
        let len = string.as_bytes().len();
        if room == 0 || len > room - 1 {
            Err(Error::Skyline { kind: ErrorKind::StringTooLong })
        } else {
            Ok(self.cstr(string))
        }
    }

    /// The write that replaces the 4-byte instruction at the target with
    /// NOP.
    pub fn nop(self) -> (cmd: PatchCommand)
        ensures
            cmd.addr == self.0,
            cmd.bytes@ == u32_le_bytes(NOP),
    {
        self.data_u32(NOP)
    }
}

/// Which branch instruction to synthesize: `b` jumps, `bl` jumps and
/// links the return address.
#[derive(Clone, Copy, PartialEq, Eq, Structural, Debug)]
pub enum BranchType {
    Branch,
    BranchLink,
}

/// Where a branch lands: an offset relative to the text base, or an
/// absolute pointer.
#[derive(Clone, Copy, PartialEq, Eq, Structural, Debug)]
pub enum BranchDest {
    Offset(u64),
    Ptr(u64),
}

/// The signed word-distance from `src` to `dst`: `(dst - src) / 4`,
/// rounded toward zero.
pub open spec fn word_disp(src: int, dst: int) -> int {
    if dst >= src {
        (dst - src) / 4
    } else {
        -((src - dst) / 4)
    }
}

/// Whether a word-displacement is encodable in the 26-bit immediate of a
/// `B`/`BL` instruction: `[-2^25, 2^25)` words, that is ±128 MiB.
pub open spec fn in_branch_range(d: int) -> bool {
    -0x200_0000 <= d < 0x200_0000
}

/// The fixed opcode bits of a branch word: the top 6 bits are `0b000101`
/// for `b` and `0b100101` for `bl`, and the low 26 bits hold the
/// immediate.
pub open spec fn branch_opcode_base(kind: BranchType) -> u32 {
    match kind {
        BranchType::Branch => 0x1400_0000,
        BranchType::BranchLink => 0x9400_0000,
    }
}

/// A word-displacement as its 26-bit two's-complement immediate field.
pub open spec fn imm26_of_disp(d: int) -> int
    recommends
        in_branch_range(d),
{
    if d >= 0 {
        d
    } else {
        d + 0x400_0000
    }
}

/// The encoded `B`/`BL` instruction word for a branch from `src` to
/// `dst`: the opcode bits over the two's-complement word-displacement.
pub open spec fn branch_word(kind: BranchType, src: int, dst: int) -> u32
    recommends
        in_branch_range(word_disp(src, dst)),
{
    (branch_opcode_base(kind) + imm26_of_disp(word_disp(src, dst))) as u32
}

/// The 26-bit immediate field of an instruction word.
pub open spec fn imm26_field(w: u32) -> int {
    (w as int) % 0x400_0000
}

/// The immediate field read back as a signed word-displacement.
pub open spec fn signed_imm26(w: u32) -> int {
    if imm26_field(w) < 0x200_0000 {
        imm26_field(w)
    } else {
        imm26_field(w) - 0x400_0000
    }
}

/// The address a branch word at `src` lands on: `src` plus four times
/// the signed immediate.
pub open spec fn branch_target(src: u64, w: u32) -> int {
    src + 4 * signed_imm26(w)
}

/// True when a branch of `distance` words is encodable: within
/// `[-2^25, 2^25)`, that is ±128 MiB.
pub fn within_branch_range(distance: i64) -> (r: bool)
    ensures
        r == in_branch_range(distance as int),
{
    let limit = (BRANCH_RANGE / 4) as i64;
    -limit <= distance && distance < limit
}

/// Encode the `B`/`BL` word for a branch from address `src` to address
/// `dst`, or `None` when the displacement exceeds the ±128 MiB the 26-bit
/// immediate can hold.
pub fn branch_instruction(kind: BranchType, src: u64, dst: u64) -> (r: Option<u32>)
    ensures
        r == (if in_branch_range(word_disp(src as int, dst as int)) {
            Some(branch_word(kind, src as int, dst as int))
        } else {
            None::<u32>
        }),
{
    let base: u32 = match kind {
        BranchType::Branch => 0x1400_0000,
        BranchType::BranchLink => 0x9400_0000,
    };
    if dst >= src {
        let words = (dst - src) / 4;
        if words < 0x200_0000 {
            Some(base + (words as u32))
        } else {
            None
        }
    } else {
        let words = (src - dst) / 4;
        if words > 0x200_0000 {
            None
        } else if words == 0 {
            Some(base)
        } else {
            Some(base + (0x400_0000 - (words as u32)))
        }
    }
}

/// Decoding an encoded branch recovers its destination: the word passes
/// through the instruction decoder verbatim (it matches no recognized
/// form, so the decoder returns it as `Unk`), and reading its immediate
/// field back as a signed word-displacement from `src` lands on `dst`.
/// Holds for every in-range branch between word-aligned distances.
pub proof fn lemma_branch_round_trip(kind: BranchType, src: u64, dst: u64)
    requires
        in_branch_range(word_disp(src as int, dst as int)),
        (dst - src) % 4 == 0,
    ensures
        branch_target(src, branch_word(kind, src as int, dst as int)) == dst,
        decode_spec(branch_word(kind, src as int, dst as int)) == Instruction::Unk(
            branch_word(kind, src as int, dst as int),
        ),
{
    let s = src as int;
    let t = dst as int;
    let d = word_disp(s, t);

    // The displacement is exact: 4 * d == t - s.
    if t >= s {
        lemma_fundamental_div_mod(t - s, 4);
    } else {
        lemma_fundamental_div_mod(t - s, 4);
        // t - s == 4 * ((t - s) / 4), so s - t is the same multiple negated.
        assert(s - t == 4 * (-((t - s) / 4)));
        lemma_div_multiples_vanish(-((t - s) / 4), 4);
    }
    assert(4 * d == t - s);

    let base = branch_opcode_base(kind) as int;
    let imm = imm26_of_disp(d);
    let w = branch_word(kind, s, t);
    assert(w == base + imm);

    // The immediate field of the encoded word is exactly `imm`.
    let kb = base / 0x400_0000;
    assert(base == 0x400_0000 * kb);
    lemma_mod_multiples_vanish(kb, imm, 0x400_0000);
    lemma_small_mod(imm as nat, 0x400_0000);
    assert(imm26_field(w) == imm);
    assert(signed_imm26(w) == d);
    assert(branch_target(src, w) == s + 4 * d);

    // The encoded word matches none of the recognized decoder patterns.
    assert((0x1400_0000 <= w <= 0x17FF_FFFF || 0x9400_0000 <= w <= 0x97FF_FFFF)
        ==> is_unrecognized(w)) by (bit_vector);
}

/// Accumulates the pieces of a branch replacement: which instruction to
/// synthesize, the text-relative offset of the instruction to replace,
/// and the destination. `replace` then encodes and produces the write.
pub struct BranchBuilder {
    /// Which branch instruction to synthesize.
    pub branch_type: BranchType,
    /// Text-relative offset of the instruction to replace.
    pub offset: Option<u64>,
    /// Where the branch lands.
    pub dest: Option<BranchDest>,
}

impl BranchBuilder {
    fn internal_new() -> (r: Self)
        ensures
            r.branch_type == BranchType::Branch,
            r.offset is None,
            r.dest is None,
    {
        BranchBuilder { branch_type: BranchType::Branch, offset: None, dest: None }
    }

    /// A builder for a `b` instruction.
    pub fn branch() -> (r: Self)
        ensures
            r.branch_type == BranchType::Branch,
            r.offset is None,
            r.dest is None,
    {
        Self::internal_new()
    }

    /// A builder for a `bl` instruction.
    pub fn branch_link() -> (r: Self)
        ensures
            r.branch_type == BranchType::BranchLink,
            r.offset is None,
            r.dest is None,
    {
        BranchBuilder { branch_type: BranchType::BranchLink, ..Self::internal_new() }
    }

    /// Set the text-relative offset of the instruction to replace.
    pub fn branch_offset(self, offset: u64) -> (r: Self)
        ensures
            r == (BranchBuilder { offset: Some(offset), ..self }),
    {
        BranchBuilder { offset: Some(offset), ..self }
    }

    /// Let the branch land on the instruction at `offset`, relative to
    /// the text base supplied to `replace`.
    pub fn branch_to_offset(self, offset: u64) -> (r: Self)
        ensures
            r == (BranchBuilder { dest: Some(BranchDest::Offset(offset)), ..self }),
    {
        BranchBuilder { dest: Some(BranchDest::Offset(offset)), ..self }
    }

    /// Let the branch land on the absolute address `ptr`. Must be within
    /// ±128 MiB of the replaced instruction.
    pub fn branch_to_ptr(self, ptr: u64) -> (r: Self)
        ensures
            r == (BranchBuilder { dest: Some(BranchDest::Ptr(ptr)), ..self }),
    {
        BranchBuilder { dest: Some(BranchDest::Ptr(ptr)), ..self }
    }

    /// The address of the instruction to replace, against the given text
    /// base.
    pub open spec fn src_spec(self, text_base: u64) -> int
        recommends
            self.offset is Some,
    {
        text_base + self.offset->0
    }

    /// The address the branch lands on, against the given text base.
    pub open spec fn dest_spec(self, text_base: u64) -> int
        recommends
            self.dest is Some,
    {
        match self.dest {
            Some(BranchDest::Offset(o)) => text_base + o,
            Some(BranchDest::Ptr(p)) => p as int,
            None => 0,
        }
    }

    /// Whether `replace` can proceed: offset and destination are set,
    /// both resolve to valid addresses, and the displacement is
    /// encodable.
    pub open spec fn replace_ok(self, text_base: u64) -> bool {
        &&& self.offset is Some
        &&& self.dest is Some
        &&& self.src_spec(text_base) <= u64::MAX
        &&& self.dest_spec(text_base) <= u64::MAX
        &&& in_branch_range(word_disp(self.src_spec(text_base), self.dest_spec(text_base)))
    }

    /// Check [`BranchBuilder::replace_ok`] at run time, so a caller can
    /// refuse an incomplete or out-of-range branch the way the underlying
    /// machine invariant demands, instead of writing a corrupt word.
    pub fn can_replace(&self, text_base: u64) -> (r: bool)
        ensures
            r == self.replace_ok(text_base),
    {
        let offset = match self.offset {
            Some(o) => o,
            None => { return false },
        };
        let dest = match self.dest {
            Some(d) => d,
            None => { return false },
        };
        let src = match text_base.checked_add(offset) {
            Some(s) => s,
            None => { return false },
        };
        let dst = match dest {
            BranchDest::Offset(o) => match text_base.checked_add(o) {
                Some(a) => a,
                None => { return false },
            },
            BranchDest::Ptr(p) => p,
        };
        branch_instruction(self.branch_type, src, dst).is_some()
    }

    /// The write that replaces the instruction at the builder's offset
    /// with the encoded branch. The builder must be complete and the
    /// destination within ±128 MiB of the source: a branch out of range
    /// would corrupt the instruction, so such a builder must be refused
    /// (see [`BranchBuilder::can_replace`]) rather than performed.
    pub fn replace(self, text_base: u64) -> (cmd: PatchCommand)
        requires
            self.replace_ok(text_base),
        ensures
            cmd.addr == self.src_spec(text_base),
            cmd.bytes@ == u32_le_bytes(
                branch_word(
                    self.branch_type,
                    self.src_spec(text_base),
                    self.dest_spec(text_base),
                ),
            ),
    {
        let offset = self.offset.unwrap();
        let src = text_base + offset;
        let dst = match self.dest.unwrap() {
            BranchDest::Offset(o) => text_base + o,
            BranchDest::Ptr(p) => p,
        };
        let instr = branch_instruction(self.branch_type, src, dst).unwrap();
        PatchBuilder(src).data_u32(instr)
    }
}

} // verus!
