//! The path of a named pipe, as the C function `mkfifo` takes it.
use vstd::prelude::*;

verus! {

/// The mode of a new named pipe: read and write for the owner, read for the
/// rest.
pub const RW_FS_PERMISSIONS: u16 = 0o644;

/// The bytes of a path as a C string: the path's bytes followed by a NUL.
pub fn c_path_bytes(path: &[u8]) -> (r: Vec<u8>)
    ensures
        r@ == path@.push(0u8),
{
    let mut r: Vec<u8> = Vec::new();
    let mut i: usize = 0;
    while i < path.len()
        invariant
            i <= path@.len(),
            r@ == path@.subrange(0, i as int),
        decreases path@.len() - i,
    {
        r.push(path[i]);
        i = i + 1;
        proof {
            assert(r@ =~= path@.subrange(0, i as int));
        }
    }
    r.push(0u8);
    assert(r@ =~= path@.push(0u8));
    r
}

} // verus!
