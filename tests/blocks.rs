use bitcoin::blockdata::constants::genesis_block;
use bitcoin::Network;
use electrs::blocks::{
    block_size, check_block_hash, header_row, only_location, pair_positions, same_hash,
    verify_block, BlockError,
};
use electrs::storage::block_file_name;
use electrs::types::FilePosition;

fn name(id: u32) -> String {
    String::from_utf8(block_file_name(id)).unwrap()
}

#[test]
fn file_names_are_zero_padded() {
    assert_eq!(name(0), "blk00000.dat");
    assert_eq!(name(7), "blk00007.dat");
    assert_eq!(name(1234), "blk01234.dat");
    assert_eq!(name(99999), "blk99999.dat");
    assert_eq!(name(123456), "blk123456.dat");
    assert_eq!(name(u32::MAX), "blk4294967295.dat");
}

#[test]
fn hash_check_accepts_only_the_same_hash() {
    let h = [7u8; 32];
    let mut other = h;
    other[31] = 8;
    assert_eq!(check_block_hash(&h, &h), Ok(()));
    assert_eq!(check_block_hash(&h, &other), Err(BlockError::IncorrectBlock));
    assert!(same_hash(&h, &h));
    assert!(!same_hash(&h, &other));
}

#[test]
fn genesis_block_verifies_against_its_hash() {
    let block = genesis_block(Network::Bitcoin);
    let h = bitcoin::hashes::Hash::into_inner(block.block_hash());
    assert_eq!(verify_block(&h, &block), Ok(()));
    let mut wrong = h;
    wrong[0] ^= 1;
    assert_eq!(verify_block(&wrong, &block), Err(BlockError::IncorrectBlock));
    assert_eq!(verify_block(&[0u8; 32], &block), Err(BlockError::IncorrectBlock));
}

#[test]
fn genesis_header_row() {
    let block = genesis_block(Network::Bitcoin);
    let h = bitcoin::hashes::Hash::into_inner(block.block_hash());
    let pos = FilePosition { file_id: 0, offset: 8 };
    let row = header_row(&block, h, pos).unwrap();
    assert_eq!(row.hash, h);
    assert_eq!(row.pos, pos);
    assert_eq!(row.size, 285);
    assert_eq!(row.header, block.header);
}

#[test]
fn block_size_limits() {
    assert_eq!(block_size(285), Ok(285));
    assert_eq!(block_size(u32::MAX as usize), Ok(u32::MAX));
    assert_eq!(block_size(u32::MAX as usize + 1), Err(BlockError::TooLarge));
}

#[test]
fn single_location_is_taken() {
    let pos = FilePosition { file_id: 3, offset: 1000 };
    assert_eq!(only_location(vec![pos]), pos);
}

#[test]
fn new_headers_pair_index_for_index() {
    let hashes = vec![[1u8; 32], [2u8; 32], [3u8; 32]];
    let positions = vec![
        FilePosition { file_id: 0, offset: 10 },
        FilePosition { file_id: 0, offset: 20 },
        FilePosition { file_id: 1, offset: 5 },
    ];
    let pairs = pair_positions(&hashes, &positions);
    assert_eq!(pairs.len(), 3);
    for i in 0..3 {
        assert_eq!(pairs[i].hash, hashes[i]);
        assert_eq!(pairs[i].pos, positions[i]);
    }
    assert!(pair_positions(&vec![], &vec![]).is_empty());
}

#[test]
fn genesis_header_row_size_is_its_encoding() {
    let block = genesis_block(Network::Testnet);
    let h = bitcoin::hashes::Hash::into_inner(block.block_hash());
    let row = header_row(&block, h, FilePosition { file_id: 2, offset: 0 }).unwrap();
    assert_eq!(row.size as usize, bitcoin::consensus::encode::serialize(&block).len());
}
