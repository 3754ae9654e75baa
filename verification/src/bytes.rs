//! Small operations on byte strings.

use vstd::prelude::*;

verus! {

/// Whether `a` and `b` hold the same bytes.
pub fn same_bytes(a: &[u8], b: &[u8]) -> (same: bool)
    ensures
        same == (a@ == b@),
{
    if a.len() != b.len() {
        return false;
    }
    let mut i: usize = 0;
    while i < a.len()
        invariant
            i <= a.len(),
            a.len() == b.len(),
            forall|k: int| 0 <= k < i ==> a@[k] == b@[k],
        decreases a.len() - i,
    {
        if a[i] != b[i] {
            return false;
        }
        i += 1;
    }
    assert(a@ =~= b@);
    true
}

/// Whether the bytes of `part` stand in `bytes` from `at` on.
pub fn stands_at(bytes: &[u8], at: usize, part: &[u8]) -> (found: bool)
    ensures
        found == (at + part@.len() <= bytes@.len() && bytes@.subrange(
            at as int,
            at + part@.len(),
        ) == part@),
{
    if at > bytes.len() || bytes.len() - at < part.len() {
        return false;
    }
    let mut i: usize = 0;
    while i < part.len()
        invariant
            i <= part.len(),
            at + part.len() <= bytes.len(),
            forall|k: int| 0 <= k < i ==> bytes@[at + k] == part@[k],
        decreases part.len() - i,
    {
        if bytes[at + i] != part[i] {
            return false;
        }
        i += 1;
    }
    assert(bytes@.subrange(at as int, at + part@.len()) =~= part@);
    true
}

/// Appends the bytes of `part` to `out`.
pub fn push_all(out: &mut Vec<u8>, part: &[u8])
    ensures
        final(out)@ == old(out)@ + part@,
{
    let mut i: usize = 0;
    while i < part.len()
        invariant
            i <= part.len(),
            out@ == old(out)@ + part@.take(i as int),
        decreases part.len() - i,
    {
        out.push(part[i]);
        i += 1;
    }
}

/// A fresh vector with the bytes of `source`.
pub fn copy_of(source: &[u8]) -> (out: Vec<u8>)
    ensures
        out@ == source@,
{
    let mut out: Vec<u8> = Vec::new();
    push_all(&mut out, source);
    out
}

/// The bytes that an optional byte string holds, if any.
pub open spec fn optional_view(bytes: Option<Vec<u8>>) -> Option<Seq<u8>> {
    match bytes {
        Some(b) => Some(b@),
        None => None,
    }
}

} // verus!
