use vstd::prelude::*;
use vstd::string::StringSliceAdditionalSpecFns;

verus! {

#[verifier::external_type_specification]
#[verifier::external_body]
pub struct ExBlock(bitcoin::Block);

#[verifier::external_type_specification]
#[verifier::external_body]
pub struct ExBlockHeader(bitcoin::BlockHeader);

#[verifier::external_type_specification]
#[verifier::external_body]
pub struct ExTransaction(bitcoin::Transaction);

#[verifier::external_type_specification]
#[verifier::external_body]
pub struct ExEncodeError(bitcoin::consensus::encode::Error);

#[verifier::external_type_specification]
#[verifier::external_body]
pub struct ExHexError(bitcoin::hashes::hex::Error);

/// The value of one hexadecimal digit, either case, given as its ASCII byte.
pub open spec fn hex_value(c: u8) -> Option<int> {
    if 48 <= c <= 57 {
        Some(c - 48)
    } else if 97 <= c <= 102 {
        Some(c - 87)
    } else if 65 <= c <= 70 {
        Some(c - 55)
    } else {
        None
    }
}

/// Whether `s` is an even number of hexadecimal digits.
pub open spec fn is_hex(s: Seq<u8>) -> bool {
    s.len() % 2 == 0 && forall|i: int| 0 <= i < s.len() ==> hex_value(#[trigger] s[i]) is Some
}

/// The bytes that a string of hexadecimal digits spells, two digits a byte,
/// the high half first.
pub open spec fn hex_decoded(s: Seq<u8>) -> Seq<u8> {
    Seq::new(
        (s.len() / 2) as nat,
        |i: int| (16 * hex_value(s[2 * i])->Some_0 + hex_value(s[2 * i + 1])->Some_0) as u8,
    )
}

/// The lower-case hexadecimal digit of `d` (below 16).
pub open spec fn hex_digit(d: int) -> char {
    if d == 0 {
        '0'
    } else if d == 1 {
        '1'
    } else if d == 2 {
        '2'
    } else if d == 3 {
        '3'
    } else if d == 4 {
        '4'
    } else if d == 5 {
        '5'
    } else if d == 6 {
        '6'
    } else if d == 7 {
        '7'
    } else if d == 8 {
        '8'
    } else if d == 9 {
        '9'
    } else if d == 10 {
        'a'
    } else if d == 11 {
        'b'
    } else if d == 12 {
        'c'
    } else if d == 13 {
        'd'
    } else if d == 14 {
        'e'
    } else {
        'f'
    }
}

/// Two lower-case hexadecimal digits for each byte, the high half first.
pub open spec fn hex_encoded(b: Seq<u8>) -> Seq<char> {
    Seq::new(
        2 * b.len(),
        |i: int|
            if i % 2 == 0 {
                hex_digit(b[i / 2] as int / 16)
            } else {
                hex_digit(b[i / 2] as int % 16)
            },
    )
}

/// Whether `b` is exactly one transaction in consensus encoding, with no
/// byte left over.
pub uninterp spec fn transaction_decodes(b: Seq<u8>) -> bool;

/// Relies on bitcoin_hashes' `FromHex for Vec<u8>`: an odd length or a byte
/// that is no hexadecimal digit is an error, else two digits give one byte.
#[verifier::external_body]
pub(crate) fn decode_hex(s: &str) -> (r: Result<Vec<u8>, bitcoin::hashes::hex::Error>)
    ensures
        r is Ok <==> is_hex(s.spec_bytes()),
        r is Ok ==> r->Ok_0@ == hex_decoded(s.spec_bytes()),
{
    <Vec<u8> as bitcoin::hashes::hex::FromHex>::from_hex(s)
}

/// Relies on bitcoin_hashes' `ToHex for [u8]`: two lower-case digits per
/// byte.
#[verifier::external_body]
pub(crate) fn encode_hex(b: &[u8]) -> (r: String)
    ensures
        r@ == hex_encoded(b@),
{
    bitcoin::hashes::hex::ToHex::to_hex(b)
}

/// Relies on `bitcoin::consensus::encode::deserialize` for a transaction:
/// whether it succeeds depends on the bytes alone.
#[verifier::external_body]
pub(crate) fn decode_transaction(b: &[u8]) -> (r: Result<
    bitcoin::Transaction,
    bitcoin::consensus::encode::Error,
>)
    ensures
        r is Ok <==> transaction_decodes(b@),
{
    bitcoin::consensus::encode::deserialize(b)
}

/// A transaction's consensus encoding.
pub uninterp spec fn transaction_encoding_of(tx: bitcoin::Transaction) -> Seq<u8>;

/// Relies on `bitcoin::consensus::encode::serialize` for a transaction: the
/// encoding depends on the transaction alone.
#[verifier::external_body]
pub(crate) fn transaction_bytes(tx: &bitcoin::Transaction) -> (r: Vec<u8>)
    ensures
        r@ == transaction_encoding_of(*tx),
{
    bitcoin::consensus::encode::serialize(tx)
}

/// Why a transaction given in hexadecimal could not be read.
#[derive(Debug, Clone, Copy, PartialEq, Eq, Structural)]
pub enum TxDecodeError {
    /// The text is not an even number of hexadecimal digits.
    InvalidHex,
    /// The bytes are not one transaction in consensus encoding.
    InvalidEncoding,
}

/// Reads a transaction from the hexadecimal text of its consensus encoding.
pub fn tx_from_hex(hex: &str) -> (r: Result<bitcoin::Transaction, TxDecodeError>)
    ensures
        !is_hex(hex.spec_bytes()) ==> r is Err && r->Err_0 == TxDecodeError::InvalidHex,
        is_hex(hex.spec_bytes()) ==> (r is Ok <==> transaction_decodes(
            hex_decoded(hex.spec_bytes()),
        )),
        is_hex(hex.spec_bytes()) && r is Err ==> r->Err_0 == TxDecodeError::InvalidEncoding,
{
    let bytes = match decode_hex(hex) {
        Ok(b) => b,
        Err(_) => return Err(TxDecodeError::InvalidHex),
    };
    match decode_transaction(bytes.as_slice()) {
        Ok(tx) => Ok(tx),
        Err(_) => Err(TxDecodeError::InvalidEncoding),
    }
}

/// The hexadecimal text of a transaction's consensus encoding.
pub fn transaction_hex(tx: &bitcoin::Transaction) -> (r: String)
    ensures
        r@ == hex_encoded(transaction_encoding_of(*tx)),
{
    let bytes = transaction_bytes(tx);
    encode_hex(bytes.as_slice())
}

} // verus!
