//! The export resolver: walks the export directory of a mapped image.
use vstd::prelude::*;

use crate::hash::{dbj2_hash, name_hash};
use crate::image::{
    LoadedModule, cstr_at, get_cstr_len, read_u16, read_u32, readable, terminated_at,
    u16_at, u32_at,
};
use crate::ResolveError;

verus! {

/// Pointer width of the images being read.
#[derive(Clone, Copy, Debug, PartialEq, Eq, Structural)]
pub enum Arch {
    X86,
    X64,
}

/// Offset of the DOS header's field that locates the NT headers.
pub const E_LFANEW_OFFSET: u64 = 0x3C;
/// Offset of the export data-directory entry from the NT headers (PE32+).
pub const EXPORT_ENTRY_OFFSET_64: u64 = 0x88;
/// Offset of the export data-directory entry from the NT headers (PE32).
pub const EXPORT_ENTRY_OFFSET_32: u64 = 0x78;
/// Size of the export directory.
pub const EXPORT_DIR_SIZE: u64 = 0x28;
/// Offset of the count of named exports inside the export directory.
pub const NUMBER_OF_NAMES_OFFSET: u64 = 0x18;
/// Offset of the function table's offset inside the export directory.
pub const ADDRESS_OF_FUNCTIONS_OFFSET: u64 = 0x1C;
/// Offset of the name table's offset inside the export directory.
pub const ADDRESS_OF_NAMES_OFFSET: u64 = 0x20;
/// Offset of the ordinal table's offset inside the export directory.
pub const ADDRESS_OF_NAME_ORDINALS_OFFSET: u64 = 0x24;

pub open spec fn export_entry_offset(arch: Arch) -> int {
    match arch {
        Arch::X64 => EXPORT_ENTRY_OFFSET_64 as int,
        Arch::X86 => EXPORT_ENTRY_OFFSET_32 as int,
    }
}

/// What the export directory of an image declares; all fields are offsets
/// from the image base but `count`.
#[derive(Clone, Copy, Debug, PartialEq, Eq, Structural)]
pub struct ExportTable {
    pub dir_rva: u32,
    pub dir_size: u32,
    pub count: u32,
    pub functions: u32,
    pub names: u32,
    pub ordinals: u32,
}

/// The export table of `s`: `Ok(None)` when the image exports nothing.
pub open spec fn export_table(s: Seq<u8>, arch: Arch) -> Result<Option<ExportTable>, ResolveError> {
    if !readable(s, E_LFANEW_OFFSET as int, 4) {
        Err(ResolveError::MalformedImage)
    } else {
        let entry = u32_at(s, E_LFANEW_OFFSET as int) + export_entry_offset(arch);
        if !readable(s, entry, 8) {
            Err(ResolveError::MalformedImage)
        } else {
            let va = u32_at(s, entry);
            if va == 0 {
                Ok(None)
            } else if !readable(s, va, EXPORT_DIR_SIZE as int) {
                Err(ResolveError::MalformedImage)
            } else {
                Ok(
                    Some(
                        ExportTable {
                            dir_rva: va as u32,
                            dir_size: u32_at(s, entry + 4) as u32,
                            count: u32_at(s, va + NUMBER_OF_NAMES_OFFSET) as u32,
                            functions: u32_at(s, va + ADDRESS_OF_FUNCTIONS_OFFSET) as u32,
                            names: u32_at(s, va + ADDRESS_OF_NAMES_OFFSET) as u32,
                            ordinals: u32_at(s, va + ADDRESS_OF_NAME_ORDINALS_OFFSET) as u32,
                        },
                    ),
                )
            }
        }
    }
}

/// Offset of the `i`-th name's entry in the name table.
pub open spec fn name_slot(t: ExportTable, i: int) -> int {
    t.names + 4 * i
}

/// The `i`-th exported name can be read: its table entry and its terminator lie in `s`.
pub open spec fn name_ok(s: Seq<u8>, t: ExportTable, i: int) -> bool {
    readable(s, name_slot(t, i), 4) && terminated_at(s, u32_at(s, name_slot(t, i)))
}

/// The bytes of the `i`-th exported name.
pub open spec fn export_name(s: Seq<u8>, t: ExportTable, i: int) -> Seq<u8> {
    cstr_at(s, u32_at(s, name_slot(t, i)))
}

/// Scans the names from `i` on: the first one that hashes to `h`, or the
/// error met first.
pub open spec fn first_export_from(s: Seq<u8>, t: ExportTable, h: u32, i: int) -> Result<
    int,
    ResolveError,
>
    decreases t.count - i,
{
    if i < 0 || i >= t.count {
        Err(ResolveError::ExportNotFound)
    } else if !name_ok(s, t, i) {
        Err(ResolveError::MalformedImage)
    } else if name_hash(export_name(s, t, i)) == h {
        Ok(i)
    } else {
        first_export_from(s, t, h, i + 1)
    }
}

/// Offset from the image base of the function that the `i`-th name exports,
/// if the ordinal and function tables can be read there.
pub open spec fn function_rva(s: Seq<u8>, t: ExportTable, i: int) -> Option<int> {
    let ord_slot = t.ordinals + 2 * i;
    if !readable(s, ord_slot, 2) {
        None
    } else {
        let fn_slot = t.functions + 4 * u16_at(s, ord_slot);
        if !readable(s, fn_slot, 4) {
            None
        } else {
            Some(u32_at(s, fn_slot))
        }
    }
}

/// The export is forwarded: its target lies inside the export directory.
pub open spec fn forwarded(t: ExportTable, rva: int) -> bool {
    t.dir_rva <= rva < t.dir_rva + t.dir_size
}

/// The address that the export resolver gives for `h` in module `m`.
pub open spec fn resolve_export(m: LoadedModule, arch: Arch, h: u32) -> Result<u64, ResolveError> {
    let s = m.image@;
    match export_table(s, arch) {
        Err(e) => Err(e),
        Ok(None) => Err(ResolveError::ExportNotFound),
        Ok(Some(t)) => match first_export_from(s, t, h, 0) {
            Err(e) => Err(e),
            Ok(i) => match function_rva(s, t, i) {
                None => Err(ResolveError::MalformedImage),
                Some(rva) => if rva >= s.len() {
                    Err(ResolveError::MalformedImage)
                } else if forwarded(t, rva) {
                    Err(ResolveError::ExportNotFound)
                } else {
                    Ok((m.base + rva) as u64)
                },
            },
        },
    }
}

fn read_export_table(s: &[u8], arch: Arch) -> (r: Result<Option<ExportTable>, ResolveError>)
    ensures
        r == export_table(s@, arch),
{
    let lfanew = match read_u32(s, E_LFANEW_OFFSET) {
        Some(v) => v,
        None => return Err(ResolveError::MalformedImage),
    };
    let entry: u64 = lfanew as u64 + match arch {
        Arch::X64 => EXPORT_ENTRY_OFFSET_64,
        Arch::X86 => EXPORT_ENTRY_OFFSET_32,
    };
    let va = match read_u32(s, entry) {
        Some(v) => v,
        None => return Err(ResolveError::MalformedImage),
    };
    let size = match read_u32(s, entry + 4) {
        Some(v) => v,
        None => return Err(ResolveError::MalformedImage),
    };
    if va == 0 {
        return Ok(None);
    }
    let dir: u64 = va as u64;
    if dir >= s.len() as u64 || s.len() as u64 - dir < EXPORT_DIR_SIZE {
        return Err(ResolveError::MalformedImage);
    }
    let count = read_u32(s, dir + NUMBER_OF_NAMES_OFFSET).unwrap();
    let functions = read_u32(s, dir + ADDRESS_OF_FUNCTIONS_OFFSET).unwrap();
    let names = read_u32(s, dir + ADDRESS_OF_NAMES_OFFSET).unwrap();
    let ordinals = read_u32(s, dir + ADDRESS_OF_NAME_ORDINALS_OFFSET).unwrap();
    Ok(Some(ExportTable { dir_rva: va, dir_size: size, count, functions, names, ordinals }))
}

fn read_function_rva(s: &[u8], t: ExportTable, i: u32) -> (r: Option<u32>)
    requires
        i < t.count,
    ensures
        r matches Some(v) ==> function_rva(s@, t, i as int) == Some(v as int),
        r is None ==> function_rva(s@, t, i as int) is None,
{
    let ord = read_u16(s, t.ordinals as u64 + 2 * i as u64)?;
    read_u32(s, t.functions as u64 + 4 * ord as u64)
}

/// Resolves the export of `module` whose name hashes to `name_hash_target`
/// to its address.
pub fn get_function_addr(module: &LoadedModule, arch: Arch, name_hash_target: u32) -> (r: Result<
    u64,
    ResolveError,
>)
    requires
        module.wf(),
    ensures
        r == resolve_export(*module, arch, name_hash_target),
{
    let s = module.image;
    let t = match read_export_table(s, arch)? {
        Some(t) => t,
        None => return Err(ResolveError::ExportNotFound),
    };
    let mut i: u32 = 0;
    while i < t.count
        invariant
            i <= t.count,
            module.wf(),
            s@ == module.image@,
            export_table(s@, arch) == Ok::<Option<ExportTable>, ResolveError>(Some(t)),
            first_export_from(s@, t, name_hash_target, 0) == first_export_from(
                s@,
                t,
                name_hash_target,
                i as int,
            ),
        decreases t.count - i,
    {
        let slot: u64 = t.names as u64 + 4 * i as u64;
        let name_rva = match read_u32(s, slot) {
            Some(v) => v,
            None => return Err(ResolveError::MalformedImage),
        };
        let start: usize = name_rva as usize;
        let len = match get_cstr_len(s, start) {
            Some(n) => n,
            None => return Err(ResolveError::MalformedImage),
        };
        // The name ends inside `s`, so `start + len` fits in `usize`.
        assert(start + len < s.len());
        let name = vstd::slice::slice_subrange(s, start, start + len);
        assert(name@ =~= export_name(s@, t, i as int));
        if dbj2_hash(name) == name_hash_target {
            let rva = match read_function_rva(s, t, i) {
                Some(v) => v,
                None => return Err(ResolveError::MalformedImage),
            };
            if rva as usize >= s.len() {
                return Err(ResolveError::MalformedImage);
            }
            if t.dir_rva <= rva && (rva as u64) < t.dir_rva as u64 + t.dir_size as u64 {
                return Err(ResolveError::ExportNotFound);
            }
            return Ok(module.base + rva as u64);
        }
        i = i + 1;
    }
    Err(ResolveError::ExportNotFound)
}


/// The scan passes over the `j`-th name: it can be read and does not hash to `h`.
pub open spec fn passed_over(s: Seq<u8>, t: ExportTable, h: u32, j: int) -> bool {
    name_ok(s, t, j) && name_hash(export_name(s, t, j)) != h
}

proof fn lemma_first_export_skips(s: Seq<u8>, t: ExportTable, h: u32, k: int, i: int)
    requires
        0 <= k <= i <= t.count,
        forall|j: int| 0 <= j < i ==> #[trigger] passed_over(s, t, h, j),
    ensures
        first_export_from(s, t, h, k) == first_export_from(s, t, h, i),
    decreases i - k,
{
    if k < i {
        assert(passed_over(s, t, h, k));
        lemma_first_export_skips(s, t, h, k + 1, i);
    }
}

/// An address that the resolver gives lies inside the module's mapped region.
pub proof fn lemma_export_inside_module(m: LoadedModule, arch: Arch, h: u32)
    requires
        m.wf(),
    ensures
        resolve_export(m, arch, h) matches Ok(a) ==> m.base <= a < m.end(),
{
}

/// The resolver finds the `i`-th named export by the hash of its name when
/// every earlier name can be read and hashes otherwise, and the export's
/// entries lead to code inside the image.
pub proof fn lemma_export_found(m: LoadedModule, arch: Arch, t: ExportTable, i: int)
    requires
        m.wf(),
        export_table(m.image@, arch) == Ok::<Option<ExportTable>, ResolveError>(Some(t)),
        0 <= i < t.count,
        name_ok(m.image@, t, i),
        forall|j: int|
            0 <= j < i ==> #[trigger] passed_over(
                m.image@,
                t,
                name_hash(export_name(m.image@, t, i)),
                j,
            ),
        function_rva(m.image@, t, i) matches Some(rva) && rva < m.image@.len() && !forwarded(
            t,
            rva,
        ),
    ensures
        resolve_export(m, arch, name_hash(export_name(m.image@, t, i))) == Ok::<u64, ResolveError>(
            (m.base + function_rva(m.image@, t, i)->Some_0) as u64,
        ),
{
    let h = name_hash(export_name(m.image@, t, i));
    lemma_first_export_skips(m.image@, t, h, 0, i);
}

/// A hash that no exported name has is not found, when every name can be read.
pub proof fn lemma_export_absent(m: LoadedModule, arch: Arch, h: u32)
    requires
        export_table(m.image@, arch) matches Ok(Some(t)) ==> forall|j: int|
            0 <= j < t.count ==> #[trigger] passed_over(m.image@, t, h, j),
        export_table(m.image@, arch) is Ok,
    ensures
        resolve_export(m, arch, h) == Err::<u64, ResolveError>(ResolveError::ExportNotFound),
{
    if let Ok(Some(t)) = export_table(m.image@, arch) {
        lemma_first_export_skips(m.image@, t, h, 0, t.count as int);
    }
}

} // verus!
