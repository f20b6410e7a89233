use vstd::prelude::*;

use crate::error::ErrorCode;

verus! {

/// Hardened purpose level that every accepted path starts with (44').
pub const PURPOSE: u32 = 0x8000_002c;

/// Hardened coin-type level of the Vara network (913').
pub const COIN_TYPE: u32 = 0x8000_0391;

/// Number of levels in a derivation path.
pub const PATH_LEN: usize = 5;

/// Size in bytes of a path carried in a command: five little-endian words.
pub const PATH_DATA_LEN: usize = 20;

/// A path passes the policy when it has five levels and starts with the
/// purpose and coin-type levels of this application. The other levels are free.
pub open spec fn path_is_valid(path: Seq<u32>) -> bool {
    &&& path.len() == PATH_LEN
    &&& path[0] == PURPOSE
    &&& path[1] == COIN_TYPE
}

/// The little-endian 32-bit word held by the four bytes of `b` from `at` on.
pub open spec fn le_word(b: Seq<u8>, at: int) -> u32 {
    (b[at] + 0x100 * b[at + 1] + 0x1_0000 * b[at + 2] + 0x100_0000 * b[at + 3]) as u32
}

/// The path that twenty bytes of command data encode.
pub open spec fn path_from_bytes(data: Seq<u8>) -> Seq<u32> {
    Seq::new(PATH_LEN as nat, |k: int| le_word(data, 4 * k))
}

/// A five-level path passes exactly when its first two levels are the
/// purpose and coin-type levels, whatever its last three levels hold.
pub proof fn lemma_path_policy(path: Seq<u32>, other: Seq<u32>)
    requires
        path.len() == PATH_LEN,
        other.len() == PATH_LEN,
        other[0] == path[0],
        other[1] == path[1],
    ensures
        path_is_valid(path) <==> (path[0] == PURPOSE && path[1] == COIN_TYPE),
        path_is_valid(other) == path_is_valid(path),
{
}

/// Checks `path` against the policy: `BadPath` when a fixed level differs.
pub fn validate_path(path: &[u32; 5]) -> (r: Result<(), ErrorCode>)
    ensures
        r == if path_is_valid(path@) {
            Ok::<(), ErrorCode>(())
        } else {
            Err(ErrorCode::BadPath)
        },
{
    if path[0] != PURPOSE || path[1] != COIN_TYPE {
        return Err(ErrorCode::BadPath);
    }
    Ok(())
}

/// Reads the little-endian word at `at`.
fn read_le_word(data: &[u8], at: usize) -> (w: u32)
    requires
        at + 4 <= data@.len(),
    ensures
        w == le_word(data@, at as int),
{
    data[at] as u32 + 0x100 * (data[at + 1] as u32) + 0x1_0000 * (data[at + 2] as u32)
        + 0x100_0000 * (data[at + 3] as u32)
}

/// Decodes the path that a command carries. The data must be exactly twenty
/// bytes, else `BadLen`; the policy is not checked here.
pub fn get_path(data: &[u8]) -> (r: Result<[u32; 5], ErrorCode>)
    ensures
        data@.len() == PATH_DATA_LEN ==> (r matches Ok(p) && p@ == path_from_bytes(data@)),
        data@.len() != PATH_DATA_LEN ==> r == Err::<[u32; 5], ErrorCode>(ErrorCode::BadLen),
{
    if data.len() != PATH_DATA_LEN {
        return Err(ErrorCode::BadLen);
    }
    let mut path: [u32; 5] = [0; 5];
    let mut i: usize = 0;
    while i < PATH_LEN
        invariant
            data@.len() == PATH_DATA_LEN,
            i <= PATH_LEN,
            forall|k: int| 0 <= k < i ==> path@[k] == le_word(data@, 4 * k),
        decreases PATH_LEN - i,
    {
        path[i] = read_le_word(data, 4 * i);
        i = i + 1;
    }
    assert(path@ =~= path_from_bytes(data@));
    Ok(path)
}

} // verus!
