use vstd::prelude::*;

verus! {

/// A block hash, as its 32 bytes in the order the hash function produced them.
pub type HashBytes = [u8; 32];

/// A byte location inside the node's block-storage files, as the node
/// reported it.
#[derive(Debug, Clone, Copy, PartialEq, Eq, Structural)]
pub struct FilePosition {
    pub file_id: u32,
    pub offset: u32,
}

/// A block hash paired with the place where the node stores that block.
#[derive(Debug, Clone, Copy)]
pub struct BlockHashPosition {
    pub hash: HashBytes,
    pub pos: FilePosition,
}

impl BlockHashPosition {
    pub fn new(hash: HashBytes, pos: FilePosition) -> (r: Self)
        ensures
            r.hash == hash,
            r.pos == pos,
    {
        BlockHashPosition { hash, pos }
    }
}

/// A block's header together with its hash, where it is stored, and its size
/// in its consensus encoding.
#[derive(Debug)]
pub struct HeaderRow {
    pub header: bitcoin::BlockHeader,
    pub hash: HashBytes,
    pub pos: FilePosition,
    pub size: u32,
}

} // verus!
