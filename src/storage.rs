use vstd::prelude::*;

verus! {

/// The number of decimal digits of `n`.
pub open spec fn num_digits(n: nat) -> nat
    decreases n,
{
    if n < 10 {
        1
    } else {
        1 + num_digits(n / 10)
    }
}

/// The last `w` decimal digits of `n` as ASCII bytes, most significant
/// first, with leading zeros where `n` has fewer than `w` digits.
pub open spec fn decimal_digits(n: nat, w: nat) -> Seq<u8>
    decreases w,
{
    if w == 0 {
        Seq::empty()
    } else {
        decimal_digits(n / 10, (w - 1) as nat).push((48 + n % 10) as u8)
    }
}

/// The least width to which a file index is padded in a file name.
pub const FILE_INDEX_WIDTH: u32 = 5;

/// The name of the block-storage file with index `file_id`: `blk`, the index
/// in decimal padded with zeros to at least five digits, and `.dat`.
pub open spec fn block_file_name_of(file_id: nat) -> Seq<u8> {
    let w = if num_digits(file_id) < FILE_INDEX_WIDTH {
        FILE_INDEX_WIDTH as nat
    } else {
        num_digits(file_id)
    };
    seq![98u8, 108u8, 107u8] + decimal_digits(file_id, w) + seq![46u8, 100u8, 97u8, 116u8]
}

fn digit_count(n: u32) -> (r: u32)
    ensures
        r == num_digits(n as nat),
        r <= n as int + 1,
    decreases n,
{
    if n < 10 {
        1
    } else {
        1 + digit_count(n / 10)
    }
}

fn push_digits(n: u32, w: u32, out: &mut Vec<u8>)
    ensures
        final(out)@ == old(out)@ + decimal_digits(n as nat, w as nat),
    decreases w,
{
    if w > 0 {
        push_digits(n / 10, w - 1, out);
        out.push((48 + n % 10) as u8);
        assert(final(out)@ =~= old(out)@ + decimal_digits(n as nat, w as nat));
    } else {
        assert(final(out)@ =~= old(out)@ + decimal_digits(n as nat, w as nat));
    }
}

/// The name, as ASCII bytes, of the block-storage file with index `file_id`.
pub fn block_file_name(file_id: u32) -> (r: Vec<u8>)
    ensures
        r@ == block_file_name_of(file_id as nat),
{
    let mut out: Vec<u8> = Vec::new();
    out.push(98u8);
    out.push(108u8);
    out.push(107u8);
    let nd = digit_count(file_id);
    let w = if nd < FILE_INDEX_WIDTH {
        FILE_INDEX_WIDTH
    } else {
        nd
    };
    push_digits(file_id, w, &mut out);
    out.push(46u8);
    out.push(100u8);
    out.push(97u8);
    out.push(116u8);
    assert(out@ =~= block_file_name_of(file_id as nat));
    out
}

} // verus!
