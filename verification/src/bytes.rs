//! Strings of bytes.

use vstd::prelude::*;

verus! {

/// Whether two byte strings are the same.
pub(crate) fn same_bytes(a: &[u8], b: &[u8]) -> (same: bool)
    ensures
        same == (a@ == b@),
{
    if a.len() != b.len() {
        return false;
    }
    for i in 0..a.len()
        invariant
            a@.len() == b@.len(),
            forall|j: int| 0 <= j < i ==> a@[j] == b@[j],
    {
        if a[i] != b[i] {
            return false;
        }
    }
    assert(a@ =~= b@);
    true
}

/// Whether a byte string holds a byte.
pub(crate) fn contains_byte(bytes: &[u8], byte: u8) -> (contains: bool)
    ensures
        contains == bytes@.contains(byte),
{
    for i in 0..bytes.len()
        invariant
            forall|j: int| 0 <= j < i ==> bytes@[j] != byte,
    {
        if bytes[i] == byte {
            return true;
        }
    }
    false
}

/// A copy of a byte string.
pub(crate) fn copy_of(bytes: &[u8]) -> (copy: Vec<u8>)
    ensures
        copy@ == bytes@,
{
    let mut copy: Vec<u8> = Vec::new();
    for i in 0..bytes.len()
        invariant
            copy@ == bytes@.take(i as int),
    {
        copy.push(bytes[i]);
        assert(bytes@.take(i + 1) =~= bytes@.take(i as int).push(bytes@[i as int]));
    }
    assert(bytes@.take(bytes@.len() as int) =~= bytes@);
    copy
}

/// A byte string without a NUL in it, as C takes it: with a NUL behind it.
pub(crate) fn c_string(bytes: &[u8]) -> (string: Vec<u8>)
    requires
        !bytes@.contains(0u8),
    ensures
        string@ == bytes@.push(0u8),
{
    let mut string = copy_of(bytes);
    string.push(0);
    string
}

} // verus!
