//! Decoding of the record's fixed-capacity, zero-terminated string fields.
//!
//! A string field has a fixed byte capacity; its content ends at the first
//! zero byte, and whatever lies after that terminator is undefined and must
//! never be read.  Each byte before the terminator becomes one character,
//! as the producer writes single-byte text.

use vstd::prelude::*;

verus! {

/// Length of the zero-terminated content of `b`: the index of the first
/// zero byte, or `b.len()` if no byte is zero.
pub open spec fn zterm_len(b: Seq<u8>) -> nat
    decreases b.len(),
{
    if b.len() == 0 {
        0
    } else if b[0] == 0 {
        0
    } else {
        (1 + zterm_len(b.drop_first())) as nat
    }
}

/// The decoded text of a fixed-capacity string field: one character per
/// byte of the zero-terminated content, bytes after the terminator ignored.
pub open spec fn zascii_of(b: Seq<u8>) -> Seq<char> {
    Seq::new(zterm_len(b), |i: int| b[i] as char)
}

/// A prefix scan that stopped at `i` (every earlier byte non-zero, and
/// either the buffer ended or byte `i` is zero) found the zero-terminated
/// length.
proof fn lemma_zterm_len_at(b: Seq<u8>, i: int)
    requires
        0 <= i <= b.len(),
        forall|j: int| 0 <= j < i ==> b[j] != 0,
        i == b.len() || b[i] == 0,
    ensures
        zterm_len(b) == i,
    decreases i,
{
    if i == 0 {
    } else {
        assert(b[0] != 0);
        lemma_zterm_len_at(b.drop_first(), i - 1);
    }
}

/// Relies on `String::push`: appends the given character to the end of the
/// string and changes nothing else.
#[verifier::external_body]
fn push_char(s: &mut String, c: char)
    ensures
        final (s)@ == old(s)@.push(c),
{
    s.push(c);
}

/// The zero-terminated length never passes the first zero byte: everything
/// before it is non-zero, and where it stops short of the buffer's end, a
/// zero byte stands there.  This is what makes "bytes after the terminator
/// are never read" precise.
pub proof fn lemma_zterm_len_bounds(b: Seq<u8>)
    ensures
        zterm_len(b) <= b.len(),
        forall|j: int| 0 <= j < zterm_len(b) ==> b[j] != 0,
        zterm_len(b) < b.len() ==> b[zterm_len(b) as int] == 0,
    decreases b.len(),
{
    if b.len() > 0 && b[0] != 0 {
        lemma_zterm_len_bounds(b.drop_first());
        assert forall|j: int| 0 <= j < zterm_len(b) implies b[j] != 0 by {
            if j > 0 {
                assert(b.drop_first()[j - 1] != 0);
            }
        }
    }
}

/// Decode a fixed-capacity string field: the characters before the first
/// zero byte, never anything at or after it.
pub fn zascii(slice: &[u8]) -> (r: String)
    ensures
        r@ == zascii_of(slice@),
{
    let n: usize = slice.len();
    let mut i: usize = 0;
    while i < n && slice[i] != 0
        invariant
            n == slice@.len(),
            i <= n,
            forall|j: int| 0 <= j < i ==> slice@[j] != 0,
        decreases n - i,
    {
        i = i + 1;
    }
    proof {
        lemma_zterm_len_at(slice@, i as int);
    }
    let mut out = String::new();
    let mut k: usize = 0;
    while k < i
        invariant
            i <= n,
            n == slice@.len(),
            out@.len() == k,
            k <= i,
            forall|j: int| 0 <= j < k ==> out@[j] == (slice@[j] as char),
        decreases i - k,
    {
        push_char(&mut out, slice[k] as char);
        k = k + 1;
    }
    proof {
        assert(out@ =~= zascii_of(slice@));
    }
    out
}

} // verus!
