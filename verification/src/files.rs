//! Hotline file metadata.

use vstd::prelude::*;

verus! {

/// The four-character code of a folder, `fldr` read big-endian.
pub const FOLDER_TYPE_CODE: u32 = 0x666C6472;

/// Hotline file fork kinds.
#[derive(Clone, Copy, Debug, PartialEq, Eq, Structural)]
pub enum HLFileForkType {
    Data,
    MacResource,  // obsolete
}

impl HLFileForkType {
    /// The four-character magic of the fork, read big-endian: `DATA` or
    /// `MACR`.
    pub open spec fn spec_code(self) -> u32 {
        match self {
            HLFileForkType::Data => 0x44415441u32,
            HLFileForkType::MacResource => 0x4D414352u32,
        }
    }

    /// The wire magic of this fork kind.
    pub fn code(&self) -> (r: u32)
        ensures
            r == self.spec_code(),
    {
        match self {
            HLFileForkType::Data => 0x44415441,
            HLFileForkType::MacResource => 0x4D414352,
        }
    }
}

/// File fork metadata.
#[derive(Clone, Copy, Debug)]
pub struct HLFileForkInfo {
    pub fork: HLFileForkType,
    pub size: u32,
}

/// Information on a single file.
#[derive(Clone, Debug)]
pub struct HLFile {
    pub mac_kind: u32,
    pub mac_creator: u32,
    pub comment: Vec<u8>,
    pub fork_info: [HLFileForkInfo; 2],
}

} // verus!
