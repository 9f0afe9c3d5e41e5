//! Bounds-checked, read-only access to a loaded module: its base address, its
//! name as the loader records it, and the bytes of its mapped image.
use vstd::prelude::*;

verus! {

/// A module as the loader lists it, seen through borrowed byte views.
pub struct LoadedModule<'a> {
    /// Address at which the image is mapped.
    pub base: u64,
    /// The raw bytes of the module's base name (UTF-16LE on Windows).
    pub name: &'a [u8],
    /// The mapped image, from `base` to the end of the mapped region.
    pub image: &'a [u8],
}

impl<'a> LoadedModule<'a> {
    /// The mapped region lies inside the address space.
    pub open spec fn wf(&self) -> bool {
        self.base as int + self.image@.len() <= u64::MAX as int
    }

    /// Address one past the last mapped byte.
    pub open spec fn end(&self) -> int {
        self.base as int + self.image@.len()
    }
}

/// `n` bytes starting at `off` lie inside `s`.
pub open spec fn readable(s: Seq<u8>, off: int, n: int) -> bool {
    0 <= off && off + n <= s.len()
}

/// Little-endian 16-bit value at `off`.
pub open spec fn u16_at(s: Seq<u8>, off: int) -> int {
    s[off] as int + 0x100 * s[off + 1] as int
}

/// Little-endian 32-bit value at `off`.
pub open spec fn u32_at(s: Seq<u8>, off: int) -> int {
    s[off] as int + 0x100 * s[off + 1] as int + 0x1_0000 * s[off + 2] as int + 0x100_0000
        * s[off + 3] as int
}

/// Position of the first zero byte at or after `p`, or `s.len()` when there is none.
pub open spec fn first_nul(s: Seq<u8>, p: int) -> int
    decreases s.len() - p,
{
    if p < 0 || p >= s.len() {
        s.len() as int
    } else if s[p] == 0 {
        p
    } else {
        first_nul(s, p + 1)
    }
}

/// A zero-terminated string starts at `p` and ends inside `s`.
pub open spec fn terminated_at(s: Seq<u8>, p: int) -> bool {
    0 <= p < s.len() && first_nul(s, p) < s.len()
}

/// The bytes of the zero-terminated string at `p`, without its terminator.
pub open spec fn cstr_at(s: Seq<u8>, p: int) -> Seq<u8> {
    s.subrange(p, first_nul(s, p))
}

/// Reads the little-endian 16-bit value at `off`, if it lies inside `s`.
pub fn read_u16(s: &[u8], off: u64) -> (r: Option<u16>)
    ensures
        r == (if readable(s@, off as int, 2) {
            Some(u16_at(s@, off as int) as u16)
        } else {
            None::<u16>
        }),
{
    if off >= s.len() as u64 || s.len() as u64 - off < 2 {
        return None;
    }
    let i: usize = off as usize;
    let v: u16 = s[i] as u16 + 0x100 * s[i + 1] as u16;
    Some(v)
}

/// Reads the little-endian 32-bit value at `off`, if it lies inside `s`.
pub fn read_u32(s: &[u8], off: u64) -> (r: Option<u32>)
    ensures
        r == (if readable(s@, off as int, 4) {
            Some(u32_at(s@, off as int) as u32)
        } else {
            None::<u32>
        }),
{
    if off >= s.len() as u64 || s.len() as u64 - off < 4 {
        return None;
    }
    let i: usize = off as usize;
    let v: u32 = s[i] as u32 + 0x100 * s[i + 1] as u32 + 0x1_0000 * s[i + 2] as u32 + 0x100_0000
        * s[i + 3] as u32;
    Some(v)
}

/// Length of the zero-terminated string at `p`, if its terminator lies inside `s`.
pub fn get_cstr_len(s: &[u8], p: usize) -> (r: Option<usize>)
    ensures
        r == (if terminated_at(s@, p as int) {
            Some((first_nul(s@, p as int) - p) as usize)
        } else {
            None::<usize>
        }),
        r matches Some(n) ==> p + n < s@.len() && first_nul(s@, p as int) == p + n,
{
    if p >= s.len() {
        return None;
    }
    let mut i: usize = p;
    while i < s.len()
        invariant
            p <= i <= s@.len(),
            first_nul(s@, p as int) == first_nul(s@, i as int),
        decreases s@.len() - i,
    {
        if s[i] == 0 {
            return Some(i - p);
        }
        i = i + 1;
    }
    None
}

} // verus!
