//! Resolution of system-call stubs from name hashes, over read-only views of
//! the modules loaded in a process.
use vstd::prelude::*;

pub mod export;
pub mod hash;
pub mod image;
pub mod modules;
pub mod stub;

verus! {

/// Why a resolution failed.
#[derive(Clone, Copy, Debug, PartialEq, Eq, Structural)]
pub enum ResolveError {
    /// No loaded module's name hashes to the requested value.
    ModuleNotFound,
    /// The module exports no name that hashes to the requested value, or the
    /// one that does is forwarded to another module.
    ExportNotFound,
    /// A header, table or string the resolution needs lies outside the image.
    MalformedImage,
}

} // verus!
