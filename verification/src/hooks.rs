//! Hook descriptors, installation planning, and the original-function cell.
//!
//! A hook replaces or intercepts a function of the running executable. Its
//! descriptor ([`HookInfo`]) names the replacement and selects the target by
//! exactly one of an explicit address, a symbol, or an offset from the text
//! region; a descriptor violating that invariant is rejected when it is
//! built, never at install time. [`Hook::install`] turns a valid descriptor
//! into the single native-engine call to perform ([`InstallAction`]); the
//! surrounding plumbing makes that call and, for a function hook, stores the
//! returned original-function pointer into an [`OriginalFunctionCell`],
//! which accepts exactly one write.

use vstd::prelude::*;

use crate::error::{Error, ErrorKind};
use crate::registers::{CpuRegister, FpuRegister};

verus! {

/// A logical memory region of the loaded executable, resolved to a runtime
/// base address only at the moment of use: base addresses can differ
/// between process loads, so no resolution is ever cached.
#[derive(Clone, Copy, PartialEq, Eq, Structural, Debug)]
pub enum Region {
    Text,
    Rodata,
    Data,
    Bss,
    Heap,
}

/// The register state handed to an inline hook: the 31 general-purpose
/// registers, the stack pointer, and the 32 SIMD registers of the
/// interrupted thread.
pub struct InlineCtx {
    pub registers: [CpuRegister; 31],
    pub sp: CpuRegister,
    pub registers_f: [FpuRegister; 32],
}

/// Identity of one hook: the name under which it was registered and the
/// selector for where to install it. Exactly one of `replace`, `symbol`
/// and `offset` must be set; [`HookInfo::try_new`] enforces that when the
/// descriptor is built.
pub struct HookInfo {
    /// Name of the function being used as the override.
    pub fn_name: String,
    /// User-given name of what the hook represents.
    pub name: Option<String>,
    /// Explicit address of the function to hook.
    pub replace: Option<u64>,
    /// Offset of where to install the hook, relative to the text region.
    pub offset: Option<u64>,
    /// Symbol of where to install the hook.
    pub symbol: Option<String>,
    /// Signed adjustment applied to the resolved target address.
    pub pointer_offset: i64,
    /// Whether or not this is an inline hook.
    pub inline: bool,
}

impl HookInfo {
    /// How many target selectors the descriptor carries.
    pub open spec fn selector_count(self) -> int {
        (if self.replace is Some {
            1int
        } else {
            0int
        }) + (if self.symbol is Some {
            1int
        } else {
            0int
        }) + (if self.offset is Some {
            1int
        } else {
            0int
        })
    }

    /// A well-formed descriptor selects its target exactly one way.
    pub open spec fn wf(self) -> bool {
        self.selector_count() == 1
    }

    /// Build a descriptor, rejecting one that does not select its target
    /// by exactly one of `replace`, `symbol` and `offset`. This is the
    /// boundary that upholds the descriptor invariant: a malformed
    /// selection fails here and never reaches installation.
    pub fn try_new(
        fn_name: String,
        name: Option<String>,
        replace: Option<u64>,
        offset: Option<u64>,
        symbol: Option<String>,
        pointer_offset: i64,
        inline: bool,
    ) -> (r: Result<HookInfo, Error>)
        ensures
            ({
                let count = (if replace is Some {
                    1int
                } else {
                    0int
                }) + (if symbol is Some {
                    1int
                } else {
                    0int
                }) + (if offset is Some {
                    1int
                } else {
                    0int
                });
                if count == 1 {
                    r matches Ok(info) && info == (HookInfo {
                        fn_name,
                        name,
                        replace,
                        offset,
                        symbol,
                        pointer_offset,
                        inline,
                    })
                } else {
                    r == Err::<HookInfo, Error>(
                        Error::Skyline { kind: ErrorKind::MalformedDescriptor },
                    )
                }
            }),
    {
        let mut count: u32 = 0;
        if replace.is_some() {
            count = count + 1;
        }
        if symbol.is_some() {
            count = count + 1;
        }
        if offset.is_some() {
            count = count + 1;
        }
        if count != 1 {
            return Err(Error::Skyline { kind: ErrorKind::MalformedDescriptor });
        }
        Ok(HookInfo { fn_name, name, replace, offset, symbol, pointer_offset, inline })
    }

    /// The absolute address this descriptor targets, before the
    /// `pointer_offset` adjustment: the explicit `replace` address, the
    /// engine-reported `symbol_addr` for a symbol selector, or
    /// `text_base + offset` for an offset selector.
    pub open spec fn selected_base(self, text_base: u64, symbol_addr: u64) -> int {
        if self.replace is Some {
            self.replace->0 as int
        } else if self.symbol is Some {
            symbol_addr as int
        } else {
            text_base + self.offset->0
        }
    }

    /// The absolute address this descriptor targets, after the
    /// `pointer_offset` adjustment.
    pub open spec fn target_spec(self, text_base: u64, symbol_addr: u64) -> int {
        self.selected_base(text_base, symbol_addr) + self.pointer_offset
    }

    /// Resolve the target address. `text_base` is the current base of the
    /// text region; `symbol_addr` is the address the engine reported for
    /// `symbol` (ignored for the other selectors). Resolution happens at
    /// install time with freshly-resolved inputs, never cached ones.
    pub fn resolve_target(&self, text_base: u64, symbol_addr: u64) -> (r: u64)
        requires
            self.wf(),
            self.selected_base(text_base, symbol_addr) <= u64::MAX,
            0 <= self.target_spec(text_base, symbol_addr) <= u64::MAX,
        ensures
            r == self.target_spec(text_base, symbol_addr),
    {
        let base: u64 = if self.replace.is_some() {
            *self.replace.as_ref().unwrap()
        } else if self.symbol.is_some() {
            symbol_addr
        } else {
            text_base + *self.offset.as_ref().unwrap()
        };
        if self.pointer_offset >= 0 {
            base + (self.pointer_offset as u64)
        } else if self.pointer_offset == i64::MIN {
            base - 0x8000_0000_0000_0000u64
        } else {
            base - ((-self.pointer_offset) as u64)
        }
    }
}

/// The one native-engine call that installs a hook. A function hook
/// replaces the target's entry point and yields the original function
/// pointer; an inline hook intercepts mid-function and yields none.
#[derive(Clone, Copy, PartialEq, Eq, Structural, Debug)]
pub enum InstallAction {
    /// Call the function-hook primitive with (target, replacement) and
    /// store the out-parameter it writes into the hook's
    /// [`OriginalFunctionCell`].
    Function { target: u64, replacement: u64 },
    /// Call the inline-hook primitive with (target, replacement).
    Inline { target: u64, replacement: u64 },
}

/// One hook of this plugin: the replacement function's address and the
/// descriptor identifying where it goes.
pub struct Hook {
    /// Address of the overloading function.
    pub ptr: u64,
    /// Info needed to identify and install this hook.
    pub info: HookInfo,
}

impl Hook {
    /// Plan this hook's installation: resolve the target from the
    /// descriptor and pick the engine primitive by the `inline` flag.
    /// Installation is all-or-nothing: the returned action is a single
    /// native call, so there is no partially-installed state.
    pub fn install(&self, text_base: u64, symbol_addr: u64) -> (r: InstallAction)
        requires
            self.info.wf(),
            self.info.selected_base(text_base, symbol_addr) <= u64::MAX,
            0 <= self.info.target_spec(text_base, symbol_addr) <= u64::MAX,
        ensures
            r == (if self.info.inline {
                InstallAction::Inline {
                    target: self.info.target_spec(text_base, symbol_addr) as u64,
                    replacement: self.ptr,
                }
            } else {
                InstallAction::Function {
                    target: self.info.target_spec(text_base, symbol_addr) as u64,
                    replacement: self.ptr,
                }
            }),
    {
        let target = self.info.resolve_target(text_base, symbol_addr);
        if self.info.inline {
            InstallAction::Inline { target, replacement: self.ptr }
        } else {
            InstallAction::Function { target, replacement: self.ptr }
        }
    }
}

/// Owns the pointer to the function a non-inline hook replaced. Created
/// empty, populated exactly once when the hook is installed, and read any
/// number of times afterwards by the hook body to call through to the
/// original code. A second write is rejected and leaves the stored value
/// untouched.
pub struct OriginalFunctionCell {
    value: Option<u64>,
}

impl OriginalFunctionCell {
    /// The stored pointer, if the cell has been populated.
    pub closed spec fn value_spec(self) -> Option<u64> {
        self.value
    }

    /// Whether the cell has been populated.
    pub open spec fn is_set(self) -> bool {
        self.value_spec() is Some
    }

    /// An empty cell.
    pub fn new() -> (r: Self)
        ensures
            !r.is_set(),
    {
        OriginalFunctionCell { value: None }
    }

    /// Populate the cell. Succeeds only on the first write; a later write
    /// fails, handing back the rejected pointer, and the stored value is
    /// unchanged.
    pub fn set(&mut self, ptr: u64) -> (r: Result<(), u64>)
        ensures
            !old(self).is_set() ==> r is Ok && final(self).value_spec() == Some(ptr),
            old(self).is_set() ==> r == Err::<(), u64>(ptr) && *final(self) == *old(self),
    {
        if self.value.is_some() {
            Err(ptr)
        } else {
            self.value = Some(ptr);
            Ok(())
        }
    }

    /// The stored pointer, or `None` before installation completes.
    pub fn get(&self) -> (r: Option<u64>)
        ensures
            r == self.value_spec(),
    {
        self.value
    }
}

} // verus!
