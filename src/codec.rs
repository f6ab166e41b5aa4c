//! The fixed-width record that holds one score.

use vstd::prelude::*;

verus! {

/// Why an operation on the score store did not complete.
#[derive(Debug, Clone, Copy, PartialEq, Eq, Structural)]
pub enum StoreError {
    /// The area was declared before.
    AlreadyExists,
    /// The area was never declared.
    NotFound,
    /// The backend could not read a record.
    BackendRead,
    /// The backend could not write a record.
    BackendWrite,
    /// A stored record is not exactly four bytes long.
    Corruption,
}

/// The four little-endian bytes of `x`.
pub open spec fn le_bytes(x: u32) -> Seq<u8> {
    seq![
        (x & 0xff) as u8,
        ((x >> 8u32) & 0xff) as u8,
        ((x >> 16u32) & 0xff) as u8,
        ((x >> 24u32) & 0xff) as u8,
    ]
}

/// The number whose little-endian bytes are the four bytes of `b`.
pub open spec fn le_value(b: Seq<u8>) -> u32
    recommends
        b.len() == 4,
{
    (b[0] as u32) | ((b[1] as u32) << 8u32) | ((b[2] as u32) << 16u32) | ((b[3] as u32) << 24u32)
}

/// What a stored record reads as: its score, or `Corruption` for any length but four.
pub open spec fn decoded(b: Seq<u8>) -> Result<u32, StoreError> {
    if b.len() == 4 {
        Ok(le_value(b))
    } else {
        Err(StoreError::Corruption)
    }
}

/// Decoding the encoding of a score gives the score back.
pub proof fn lemma_round_trip(x: u32)
    ensures
        le_bytes(x).len() == 4,
        le_value(le_bytes(x)) == x,
        decoded(le_bytes(x)) == Ok::<u32, StoreError>(x),
{
    let b0 = (x & 0xff) as u8;
    let b1 = ((x >> 8u32) & 0xff) as u8;
    let b2 = ((x >> 16u32) & 0xff) as u8;
    let b3 = ((x >> 24u32) & 0xff) as u8;
    assert(((b0 as u32) | ((b1 as u32) << 8u32) | ((b2 as u32) << 16u32) | ((b3 as u32) << 24u32))
        == x) by (bit_vector)
        requires
            b0 == (x & 0xff) as u8,
            b1 == ((x >> 8u32) & 0xff) as u8,
            b2 == ((x >> 16u32) & 0xff) as u8,
            b3 == ((x >> 24u32) & 0xff) as u8,
    ;
}

/// The record that stores `dirtiness`.
pub fn convert_to(dirtiness: u32) -> (r: [u8; 4])
    ensures
        r@ == le_bytes(dirtiness),
{
    let r = [
        (dirtiness & 0xff) as u8,
        ((dirtiness >> 8u32) & 0xff) as u8,
        ((dirtiness >> 16u32) & 0xff) as u8,
        ((dirtiness >> 24u32) & 0xff) as u8,
    ];
    assert(r@ =~= le_bytes(dirtiness));
    r
}

/// The score that `stored_data` holds, or `Corruption` unless it is four bytes long.
pub fn convert_from(stored_data: &Vec<u8>) -> (r: Result<u32, StoreError>)
    ensures
        r == decoded(stored_data@),
{
    if stored_data.len() != 4 {
        return Err(StoreError::Corruption);
    }
    let v = (stored_data[0] as u32) | ((stored_data[1] as u32) << 8u32) | ((stored_data[2] as u32)
        << 16u32) | ((stored_data[3] as u32) << 24u32);
    Ok(v)
}

} // verus!
