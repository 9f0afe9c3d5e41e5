//! Locating a loaded module by the hash of its name.
use vstd::prelude::*;

use crate::hash::{dbj2_hash, name_hash};
use crate::image::LoadedModule;

verus! {

/// Position of the first module at or after `i` whose name hashes to `h`.
pub open spec fn first_module_from(ms: Seq<LoadedModule>, h: u32, i: int) -> Option<int>
    decreases ms.len() - i,
{
    if i < 0 || i >= ms.len() {
        None
    } else if name_hash(ms[i].name@) == h {
        Some(i)
    } else {
        first_module_from(ms, h, i + 1)
    }
}

/// Position of the first module in list order whose name hashes to `h`.
pub open spec fn module_position(ms: Seq<LoadedModule>, h: u32) -> Option<int> {
    first_module_from(ms, h, 0)
}

/// Walks the modules in list order and returns the position of the first one
/// whose name hashes to `name_hash_target`.
pub fn find_module(modules: &[LoadedModule], name_hash_target: u32) -> (r: Option<usize>)
    ensures
        r matches Some(i) ==> i < modules@.len() && module_position(modules@, name_hash_target)
            == Some(i as int),
        r is None ==> module_position(modules@, name_hash_target) is None,
{
    let mut i: usize = 0;
    while i < modules.len()
        invariant
            i <= modules@.len(),
            module_position(modules@, name_hash_target) == first_module_from(
                modules@,
                name_hash_target,
                i as int,
            ),
        decreases modules@.len() - i,
    {
        if dbj2_hash(modules[i].name) == name_hash_target {
            return Some(i);
        }
        i = i + 1;
    }
    None
}

/// What the walk finds: the first module whose name hashes to `h`, and no
/// module when none does.
pub proof fn lemma_module_position(ms: Seq<LoadedModule>, h: u32, i: int)
    requires
        0 <= i <= ms.len(),
        forall|j: int| 0 <= j < i ==> name_hash(#[trigger] ms[j].name@) != h,
    ensures
        i < ms.len() && name_hash(ms[i].name@) == h ==> module_position(ms, h) == Some(i),
        i == ms.len() ==> module_position(ms, h) is None,
{
    lemma_first_module_skips(ms, h, 0, i);
}

proof fn lemma_first_module_skips(ms: Seq<LoadedModule>, h: u32, k: int, i: int)
    requires
        0 <= k <= i <= ms.len(),
        forall|j: int| 0 <= j < i ==> name_hash(#[trigger] ms[j].name@) != h,
    ensures
        first_module_from(ms, h, k) == first_module_from(ms, h, i),
    decreases i - k,
{
    if k < i {
        lemma_first_module_skips(ms, h, k + 1, i);
    }
}

} // verus!
