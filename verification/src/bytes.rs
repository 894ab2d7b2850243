//! Byte strings: comparing, copying and joining them.

use vstd::prelude::*;

verus! {

/// Whether two byte strings are equal.
pub fn bytes_eq(a: &[u8], b: &[u8]) -> (same: bool)
    ensures
        same == (a@ == b@),
{
    if a.len() != b.len() {
        return false;
    }
    let mut i: usize = 0;
    while i < a.len()
        invariant
            a@.len() == b@.len(),
            i <= a@.len(),
            forall|j: int| 0 <= j < i ==> a@[j] == b@[j],
        decreases a@.len() - i,
    {
        if a[i] != b[i] {
            return false;
        }
        i += 1;
    }
    assert(a@ =~= b@);
    true
}

/// Appends a byte string to another.
pub fn append_bytes(target: &mut Vec<u8>, bytes: &[u8])
    ensures
        final(target)@ == old(target)@ + bytes@,
{
    let mut i: usize = 0;
    while i < bytes.len()
        invariant
            i <= bytes@.len(),
            target@ =~= old(target)@ + bytes@.take(i as int),
        decreases bytes@.len() - i,
    {
        target.push(bytes[i]);
        i += 1;
    }
    assert(bytes@.take(i as int) =~= bytes@);
}

/// A copy of a byte string.
pub fn copy_bytes(bytes: &[u8]) -> (copy: Vec<u8>)
    ensures
        copy@ == bytes@,
{
    let mut copy: Vec<u8> = Vec::new();
    append_bytes(&mut copy, bytes);
    assert(copy@ =~= bytes@);
    copy
}

/// A copy of a list of byte strings.
pub fn copy_stack(stack: &Vec<Vec<u8>>) -> (copy: Vec<Vec<u8>>)
    ensures
        copy.deep_view() == stack.deep_view(),
{
    let mut copy: Vec<Vec<u8>> = Vec::new();
    let mut i: usize = 0;
    while i < stack.len()
        invariant
            i <= stack@.len(),
            copy@.len() == i,
            forall|j: int| 0 <= j < i ==> copy@[j]@ == stack@[j]@,
        decreases stack@.len() - i,
    {
        copy.push(copy_bytes(stack[i].as_slice()));
        i += 1;
    }
    assert(copy.deep_view() =~= stack.deep_view()) by {
        assert forall|j: int| 0 <= j < stack@.len() implies copy.deep_view()[j]
            == stack.deep_view()[j] by {
            assert(copy@[j].deep_view() =~= copy@[j]@);
            assert(stack@[j].deep_view() =~= stack@[j]@);
        }
    }
    copy
}

/// A 32-byte string with the byte `0x02` in front: the compressed encoding of
/// the point with that x coordinate and an even y coordinate.
pub fn with_even_prefix(x: &[u8; 32]) -> (out: [u8; 33])
    ensures
        out@ == seq![2u8] + x@,
{
    let mut out = [0u8; 33];
    out[0] = 2;
    let mut i: usize = 0;
    while i < 32
        invariant
            i <= 32,
            out@.len() == 33,
            out@[0] == 2,
            forall|j: int| 0 <= j < i ==> out@[j + 1] == x@[j],
        decreases 32 - i,
    {
        out[i + 1] = x[i];
        i += 1;
    }
    assert(out@ =~= seq![2u8] + x@);
    out
}

/// The last 32 bytes of a 33-byte string.
pub fn without_prefix(key: &[u8; 33]) -> (out: [u8; 32])
    ensures
        out@ == key@.skip(1),
{
    let mut out = [0u8; 32];
    let mut i: usize = 0;
    while i < 32
        invariant
            i <= 32,
            out@.len() == 32,
            forall|j: int| 0 <= j < i ==> out@[j] == key@[j + 1],
        decreases 32 - i,
    {
        out[i] = key[i + 1];
        i += 1;
    }
    assert(out@ =~= key@.skip(1));
    out
}

/// Two 32-byte strings, one after the other.
pub fn join_halves(first: &[u8; 32], second: &[u8; 32]) -> (out: [u8; 64])
    ensures
        out@ == first@ + second@,
{
    let mut out = [0u8; 64];
    let mut i: usize = 0;
    while i < 32
        invariant
            i <= 32,
            out@.len() == 64,
            forall|j: int| 0 <= j < i ==> out@[j] == first@[j],
            forall|j: int| 0 <= j < i ==> out@[j + 32] == second@[j],
        decreases 32 - i,
    {
        out[i] = first[i];
        out[i + 32] = second[i];
        i += 1;
    }
    assert(out@ =~= first@ + second@);
    out
}

/// The two halves of a 64-byte string.
pub fn split_halves(whole: &[u8; 64]) -> (halves: ([u8; 32], [u8; 32]))
    ensures
        halves.0@ == whole@.take(32),
        halves.1@ == whole@.skip(32),
{
    let mut first = [0u8; 32];
    let mut second = [0u8; 32];
    let mut i: usize = 0;
    while i < 32
        invariant
            i <= 32,
            first@.len() == 32,
            second@.len() == 32,
            forall|j: int| 0 <= j < i ==> first@[j] == whole@[j],
            forall|j: int| 0 <= j < i ==> second@[j] == whole@[j + 32],
        decreases 32 - i,
    {
        first[i] = whole[i];
        second[i] = whole[i + 32];
        i += 1;
    }
    assert(first@ =~= whole@.take(32));
    assert(second@ =~= whole@.skip(32));
    (first, second)
}

} // verus!
