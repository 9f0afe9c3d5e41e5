//! The service-number extractor: reads the system-call number out of a
//! resolved stub and, in indirect mode, locates its transition instruction.
use vstd::prelude::*;

use crate::export::{
    Arch, export_table, get_function_addr, lemma_export_absent, passed_over, resolve_export,
};
use crate::image::{LoadedModule, read_u16, readable, u16_at};
use crate::modules::{find_module, first_module_from, module_position};
use crate::ResolveError;

verus! {

/// Hash of the name of the library that holds the system-call stubs.
pub const STUB_LIBRARY_HASH: u32 = 0x1EDA_B0ED;

/// Architecture and invocation mode of a build.
#[derive(Clone, Copy, Debug, PartialEq, Eq, Structural)]
pub enum Variant {
    Direct64,
    Indirect64,
    Direct32,
    Indirect32,
}

impl Variant {
    pub open spec fn spec_arch(self) -> Arch {
        match self {
            Variant::Direct64 | Variant::Indirect64 => Arch::X64,
            Variant::Direct32 | Variant::Indirect32 => Arch::X86,
        }
    }

    pub open spec fn spec_is_indirect(self) -> bool {
        self is Indirect64 || self is Indirect32
    }

    /// Pointer width of the images this variant reads.
    pub fn arch(self) -> (r: Arch)
        ensures
            r == self.spec_arch(),
    {
        match self {
            Variant::Direct64 | Variant::Indirect64 => Arch::X64,
            Variant::Direct32 | Variant::Indirect32 => Arch::X86,
        }
    }
}

/// Offset of the service number inside a 64-bit stub.
pub const SSN_OFFSET_64: u64 = 4;
/// Offset of the service number inside a 32-bit stub.
pub const SSN_OFFSET_32: u64 = 1;
/// Offset of the transition instruction inside a 64-bit stub.
pub const GADGET_OFFSET_64: u64 = 0x12;
/// Offset of the transition instruction inside a 32-bit stub under WOW64.
pub const GADGET_OFFSET_WOW64: u64 = 0x0A;
/// Offset of the transition instruction inside a native 32-bit stub.
pub const GADGET_OFFSET_32: u64 = 0x0F;

/// A resolved system-call stub.
#[derive(Clone, Copy, Debug, PartialEq, Eq, Structural)]
pub struct Syscall {
    /// Address of the stub.
    pub address: u64,
    /// The service number the stub passes to the kernel.
    pub number: u16,
    /// In indirect mode, the address of the stub's transition instruction.
    pub gadget: Option<u64>,
}

pub open spec fn ssn_offset(v: Variant) -> int {
    match v.spec_arch() {
        Arch::X64 => SSN_OFFSET_64 as int,
        Arch::X86 => SSN_OFFSET_32 as int,
    }
}

pub open spec fn gadget_offset(v: Variant, wow64: bool) -> int {
    match v.spec_arch() {
        Arch::X64 => GADGET_OFFSET_64 as int,
        Arch::X86 => if wow64 {
            GADGET_OFFSET_WOW64 as int
        } else {
            GADGET_OFFSET_32 as int
        },
    }
}

/// What the extractor reads from the stub at `address` in module `m`.
pub open spec fn stub_at(m: LoadedModule, v: Variant, address: u64, wow64: bool) -> Result<
    Syscall,
    ResolveError,
> {
    let s = m.image@;
    let off = address - m.base;
    if off < 0 || !readable(s, off + ssn_offset(v), 2) {
        Err(ResolveError::MalformedImage)
    } else if v.spec_is_indirect() && off + gadget_offset(v, wow64) >= s.len() {
        Err(ResolveError::MalformedImage)
    } else {
        Ok(
            Syscall {
                address,
                number: u16_at(s, off + ssn_offset(v)) as u16,
                gadget: if v.spec_is_indirect() {
                    Some((address + gadget_offset(v, wow64)) as u64)
                } else {
                    None
                },
            },
        )
    }
}

/// What `get_ssn` gives for the export hashing to `h` of the stub library in `ms`.
pub open spec fn resolve_syscall(ms: Seq<LoadedModule>, v: Variant, h: u32, wow64: bool) -> Result<
    Syscall,
    ResolveError,
> {
    match module_position(ms, STUB_LIBRARY_HASH) {
        None => Err(ResolveError::ModuleNotFound),
        Some(k) => match resolve_export(ms[k], v.spec_arch(), h) {
            Err(e) => Err(e),
            Ok(address) => stub_at(ms[k], v, address, wow64),
        },
    }
}

/// Reads the stub at `address` in `module`: its service number and, in
/// indirect mode, the address of its transition instruction. `wow64` tells
/// whether a 32-bit process runs under the 64-bit compatibility layer.
pub fn read_stub(module: &LoadedModule, variant: Variant, address: u64, wow64: bool) -> (r: Result<
    Syscall,
    ResolveError,
>)
    requires
        module.wf(),
    ensures
        r == stub_at(*module, variant, address, wow64),
{
    let s = module.image;
    if address < module.base {
        return Err(ResolveError::MalformedImage);
    }
    let off: u64 = address - module.base;
    let len: u64 = s.len() as u64;
    if off >= len {
        return Err(ResolveError::MalformedImage);
    }
    let ssn_off: u64 = match variant.arch() {
        Arch::X64 => SSN_OFFSET_64,
        Arch::X86 => SSN_OFFSET_32,
    };
    if len - off < ssn_off + 2 {
        return Err(ResolveError::MalformedImage);
    }
    let number = match read_u16(s, off + ssn_off) {
        Some(n) => n,
        None => return Err(ResolveError::MalformedImage),
    };
    let gadget = match variant {
        Variant::Direct64 | Variant::Direct32 => None,
        Variant::Indirect64 | Variant::Indirect32 => {
            let g: u64 = match variant.arch() {
                Arch::X64 => GADGET_OFFSET_64,
                Arch::X86 => if wow64 {
                    GADGET_OFFSET_WOW64
                } else {
                    GADGET_OFFSET_32
                },
            };
            if len - off <= g {
                return Err(ResolveError::MalformedImage);
            }
            Some(address + g)
        },
    };
    Ok(Syscall { address, number, gadget })
}

/// Resolves the stub exported under `hash` by the system-call stub library
/// among `modules`, and reads it as `variant` asks.
pub fn get_ssn(modules: &[LoadedModule], variant: Variant, hash: u32, wow64: bool) -> (r: Result<
    Syscall,
    ResolveError,
>)
    requires
        forall|k: int| 0 <= k < modules@.len() ==> (#[trigger] modules@[k]).wf(),
    ensures
        r == resolve_syscall(modules@, variant, hash, wow64),
{
    let k = match find_module(modules, STUB_LIBRARY_HASH) {
        Some(k) => k,
        None => return Err(ResolveError::ModuleNotFound),
    };
    let module = &modules[k];
    let address = get_function_addr(module, variant.arch(), hash)?;
    read_stub(module, variant, address, wow64)
}


/// In indirect mode the gadget lies strictly after the stub's start and
/// strictly before the end of the stub library's mapped region.
pub proof fn lemma_gadget_inside_stub(ms: Seq<LoadedModule>, v: Variant, h: u32, wow64: bool)
    requires
        forall|k: int| 0 <= k < ms.len() ==> (#[trigger] ms[k]).wf(),
    ensures
        resolve_syscall(ms, v, h, wow64) matches Ok(sc) ==> {
            &&& module_position(ms, STUB_LIBRARY_HASH) matches Some(k)
            &&& 0 <= k < ms.len()
            &&& ms[k].base <= sc.address
            &&& (sc.gadget matches Some(g) ==> sc.address < g < ms[k].end())
            &&& (sc.gadget is Some <==> v.spec_is_indirect())
        },
{
    if let Some(k) = module_position(ms, STUB_LIBRARY_HASH) {
        lemma_position_in_range(ms, STUB_LIBRARY_HASH, 0);
    }
}

proof fn lemma_position_in_range(ms: Seq<LoadedModule>, h: u32, i: int)
    ensures
        first_module_from(ms, h, i) matches Some(k) ==> i <= k < ms.len(),
    decreases ms.len() - i,
{
    if 0 <= i < ms.len() {
        lemma_position_in_range(ms, h, i + 1);
    }
}

/// Indirect mode reads the same service number from the same stub as direct
/// mode, and adds the address of the transition instruction: 0x12 bytes into
/// a 64-bit stub, 0x0A or 0x0F bytes into a 32-bit one.
pub proof fn lemma_indirect_extends_direct(ms: Seq<LoadedModule>, h: u32, wow64: bool)
    ensures
        resolve_syscall(ms, Variant::Indirect64, h, wow64) matches Ok(sc) ==> {
            &&& sc.gadget == Some((sc.address + 0x12) as u64)
            &&& resolve_syscall(ms, Variant::Direct64, h, wow64) == Ok::<Syscall, ResolveError>(
                Syscall { gadget: None, ..sc },
            )
        },
        resolve_syscall(ms, Variant::Indirect32, h, wow64) matches Ok(sc) ==> {
            &&& sc.gadget == Some((sc.address + if wow64 { 0x0Au64 } else { 0x0Fu64 }) as u64)
            &&& resolve_syscall(ms, Variant::Direct32, h, wow64) == Ok::<Syscall, ResolveError>(
                Syscall { gadget: None, ..sc },
            )
        },
{
}

/// A hash that no name exported by the stub library has gives
/// `ExportNotFound` in every variant, with no read of any stub.
pub proof fn lemma_unknown_export(ms: Seq<LoadedModule>, v: Variant, h: u32, wow64: bool, k: int)
    requires
        module_position(ms, STUB_LIBRARY_HASH) == Some(k),
        export_table(ms[k].image@, v.spec_arch()) is Ok,
        export_table(ms[k].image@, v.spec_arch()) matches Ok(Some(t)) ==> forall|
            j: int,
        | 0 <= j < t.count ==> #[trigger] passed_over(ms[k].image@, t, h, j),
    ensures
        resolve_syscall(ms, v, h, wow64) == Err::<Syscall, ResolveError>(
            ResolveError::ExportNotFound,
        ),
{
    lemma_export_absent(ms[k], v.spec_arch(), h);
}

/// Extraction depends only on the bases, names and bytes of the modules: the
/// same snapshot gives the same result on every call.
pub proof fn lemma_extraction_stable(
    ms1: Seq<LoadedModule>,
    ms2: Seq<LoadedModule>,
    v: Variant,
    h: u32,
    wow64: bool,
)
    requires
        ms1.len() == ms2.len(),
        forall|k: int|
            0 <= k < ms1.len() ==> (#[trigger] ms1[k]).base == ms2[k].base && ms1[k].name@
                == ms2[k].name@ && ms1[k].image@ == ms2[k].image@,
    ensures
        resolve_syscall(ms1, v, h, wow64) == resolve_syscall(ms2, v, h, wow64),
{
    lemma_same_names_same_position(ms1, ms2, STUB_LIBRARY_HASH, 0);
    lemma_position_in_range(ms1, STUB_LIBRARY_HASH, 0);
}

proof fn lemma_same_names_same_position(
    ms1: Seq<LoadedModule>,
    ms2: Seq<LoadedModule>,
    h: u32,
    i: int,
)
    requires
        ms1.len() == ms2.len(),
        forall|k: int| 0 <= k < ms1.len() ==> (#[trigger] ms1[k]).name@ == ms2[k].name@,
    ensures
        first_module_from(ms1, h, i) == first_module_from(
            ms2,
            h,
            i,
        ),
    decreases ms1.len() - i,
{
    if 0 <= i < ms1.len() {
        assert(ms1[i].name@ == ms2[i].name@);
        lemma_same_names_same_position(ms1, ms2, h, i + 1);
    }
}

} // verus!
