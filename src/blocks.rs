use vstd::prelude::*;
use crate::types::{BlockHashPosition, FilePosition, HashBytes, HeaderRow};

verus! {

/// Why a block read from the node's storage was refused.
#[derive(Debug, Clone, Copy, PartialEq, Eq, Structural)]
pub enum BlockError {
    /// The block found at the reported location has another hash than the
    /// one it was looked up by.
    IncorrectBlock,
    /// The block's encoding is longer than a 32-bit size can hold.
    TooLarge,
}

/// The bytes of a block's hash: the double SHA-256 of its encoded header.
pub uninterp spec fn block_hash_of(b: bitcoin::Block) -> Seq<u8>;

/// The length of a block's consensus encoding.
pub uninterp spec fn block_len_of(b: bitcoin::Block) -> nat;

/// Relies on `bitcoin::Block::block_hash`, and on `Hash::into_inner` for the
/// hash's bytes: the result depends on the block alone.
#[verifier::external_body]
fn block_hash(block: &bitcoin::Block) -> (r: HashBytes)
    ensures
        r@ == block_hash_of(*block),
{
    bitcoin::hashes::Hash::into_inner(block.block_hash())
}

/// Relies on `bitcoin::consensus::encode::serialize` for a block: the length
/// of its encoding, which depends on the block alone.
#[verifier::external_body]
fn serialized_block_len(block: &bitcoin::Block) -> (r: usize)
    ensures
        r == block_len_of(*block),
{
    bitcoin::consensus::encode::serialize(block).len()
}

/// Relies on the public `header` field of `bitcoin::Block`, copied out.
#[verifier::external_body]
fn header_of(block: &bitcoin::Block) -> (r: bitcoin::BlockHeader) {
    block.header
}

/// Whether two hashes are the same.
pub fn same_hash(a: &HashBytes, b: &HashBytes) -> (r: bool)
    ensures
        r == (a@ == b@),
{
    let mut i: usize = 0;
    while i < 32
        invariant
            i <= 32,
            a@.len() == 32,
            b@.len() == 32,
            forall|j: int| 0 <= j < i ==> a@[j] == b@[j],
        decreases 32 - i,
    {
        if a[i] != b[i] {
            return false;
        }
        i = i + 1;
    }
    assert(a@ =~= b@);
    true
}

/// Accepts a loaded block only if its hash is the one that its location was
/// looked up by.
pub fn check_block_hash(expected: &HashBytes, actual: &HashBytes) -> (r: Result<(), BlockError>)
    ensures
        r is Ok <==> expected@ == actual@,
        r is Err ==> r->Err_0 == BlockError::IncorrectBlock,
{
    if same_hash(expected, actual) {
        Ok(())
    } else {
        Err(BlockError::IncorrectBlock)
    }
}

/// Checks that a block loaded from storage is the block `expected` names.
pub fn verify_block(expected: &HashBytes, block: &bitcoin::Block) -> (r: Result<(), BlockError>)
    ensures
        r is Ok <==> expected@ == block_hash_of(*block),
        r is Err ==> r->Err_0 == BlockError::IncorrectBlock,
{
    let actual = block_hash(block);
    check_block_hash(expected, &actual)
}

/// The size of a block's encoding, as the 32-bit size that a header row holds.
pub fn block_size(len: usize) -> (r: Result<u32, BlockError>)
    ensures
        len <= u32::MAX ==> r == Ok::<u32, BlockError>(len as u32),
        len > u32::MAX ==> r == Err::<u32, BlockError>(BlockError::TooLarge),
{
    if len <= 0xffff_ffffusize {
        Ok(len as u32)
    } else {
        Err(BlockError::TooLarge)
    }
}

/// The header row of a block loaded from `pos` by the hash `hash`.
pub fn header_row(block: &bitcoin::Block, hash: HashBytes, pos: FilePosition) -> (r: Result<
    HeaderRow,
    BlockError,
>)
    ensures
        r is Ok <==> block_len_of(*block) <= u32::MAX,
        r is Ok ==> r->Ok_0.hash == hash && r->Ok_0.pos == pos && r->Ok_0.size == block_len_of(
            *block,
        ),
        r is Err ==> r->Err_0 == BlockError::TooLarge,
{
    let size = block_size(serialized_block_len(block))?;
    Ok(HeaderRow { header: header_of(block), hash, pos, size })
}

/// The one location that the node reported for a single block hash.
pub fn only_location(locations: Vec<FilePosition>) -> (r: FilePosition)
    requires
        locations@.len() == 1,
    ensures
        r == locations@[0],
{
    locations[0]
}

/// Block hashes paired with their locations, index for index.
pub open spec fn paired(hashes: Seq<HashBytes>, positions: Seq<FilePosition>) -> Seq<
    BlockHashPosition,
> {
    Seq::new(hashes.len(), |i: int| BlockHashPosition { hash: hashes[i], pos: positions[i] })
}

/// Pairing keeps both sequences whole and in their order: the result is as
/// long as the hashes, and its `i`-th entry holds the `i`-th hash and the
/// `i`-th location; nothing is dropped, reordered or mixed.
pub proof fn lemma_pairing_in_order(hashes: Seq<HashBytes>, positions: Seq<FilePosition>, i: int)
    requires
        hashes.len() == positions.len(),
        0 <= i < hashes.len(),
    ensures
        paired(hashes, positions).len() == positions.len(),
        paired(hashes, positions)[i].hash == hashes[i],
        paired(hashes, positions)[i].pos == positions[i],
{
}

/// Pairs newly announced block hashes with their locations, index for index.
pub fn pair_positions(hashes: &Vec<HashBytes>, positions: &Vec<FilePosition>) -> (r: Vec<
    BlockHashPosition,
>)
    requires
        hashes@.len() == positions@.len(),
    ensures
        r@ == paired(hashes@, positions@),
        r@.len() == hashes@.len(),
        forall|i: int|
            0 <= i < r@.len() ==> r@[i].hash == hashes@[i] && r@[i].pos == positions@[i],
{
    let mut r: Vec<BlockHashPosition> = Vec::new();
    let mut i: usize = 0;
    while i < hashes.len()
        invariant
            hashes@.len() == positions@.len(),
            i <= hashes@.len(),
            r@.len() == i,
            forall|j: int|
                0 <= j < i ==> r@[j].hash == hashes@[j] && r@[j].pos == positions@[j],
        decreases hashes@.len() - i,
    {
        r.push(BlockHashPosition::new(hashes[i], positions[i]));
        i = i + 1;
    }
    assert(r@ =~= paired(hashes@, positions@));
    r
}

} // verus!
