//! Little-endian primitive decoding out of a raw byte buffer.
//!
//! Every field of the telemetry record is 1 byte (`bool`, one character of a
//! fixed string) or 4 bytes (`u32`, `i32`, or an `f32` carried as its raw bit
//! pattern) wide, so these four readers are the whole vocabulary the layout
//! is written in.

use vstd::prelude::*;

verus! {

/// The 32-bit unsigned value stored little-endian at byte offset `off` of `b`.
pub open spec fn u32_at(b: Seq<u8>, off: int) -> u32 {
    (b[off] as int + b[off + 1] as int * 0x100 + b[off + 2] as int * 0x10000 + b[off + 3] as int
        * 0x1000000) as u32
}

/// The 32-bit signed value stored little-endian at byte offset `off` of `b`
/// (the two's-complement reinterpretation of the unsigned value there).
pub open spec fn i32_at(b: Seq<u8>, off: int) -> i32 {
    u32_at(b, off) as i32
}

/// The boolean stored at byte offset `off` of `b`: any non-zero byte is true.
pub open spec fn bool_at(b: Seq<u8>, off: int) -> bool {
    b[off] != 0
}

pub fn read_u32(b: &[u8], off: usize) -> (r: u32)
    requires
        off + 4 <= b@.len(),
    ensures
        r == u32_at(b@, off as int),
{
    b[off] as u32 + (b[off + 1] as u32) * 0x100 + (b[off + 2] as u32) * 0x10000 + (b[off + 3]
        as u32) * 0x1000000
}

pub fn read_i32(b: &[u8], off: usize) -> (r: i32)
    requires
        off + 4 <= b@.len(),
    ensures
        r == i32_at(b@, off as int),
{
    #[verifier::truncate]
    (read_u32(b, off) as i32)
}

pub fn read_bool(b: &[u8], off: usize) -> (r: bool)
    requires
        off < b@.len(),
    ensures
        r == bool_at(b@, off as int),
{
    b[off] != 0
}

/// The `n` consecutive little-endian 32-bit words starting at `off`.
pub open spec fn u32s_at(b: Seq<u8>, off: int, n: int) -> Seq<u32> {
    Seq::new(n as nat, |i: int| u32_at(b, off + 4 * i))
}

pub fn read_u32s(b: &[u8], off: usize, n: usize) -> (r: Vec<u32>)
    requires
        off + 4 * n <= b@.len(),
    ensures
        r@ == u32s_at(b@, off as int, n as int),
{
    // binding the length teaches the prover it fits in usize
    let _buffer_len: usize = b.len();
    let mut out: Vec<u32> = Vec::new();
    let mut i: usize = 0;
    while i < n
        invariant
            off + 4 * n <= b@.len(),
            b@.len() <= usize::MAX,
            i <= n,
            out@.len() == i,
            forall|j: int| 0 <= j < i ==> out@[j] == u32_at(b@, off + 4 * j),
        decreases n - i,
    {
        out.push(read_u32(b, off + 4 * i));
        i = i + 1;
    }
    proof {
        assert(out@ =~= u32s_at(b@, off as int, n as int));
    }
    out
}

/// The `n` raw bytes starting at `off`, as a sequence of their own.
pub open spec fn bytes_at(b: Seq<u8>, off: int, n: int) -> Seq<u8> {
    b.subrange(off, off + n)
}

pub fn read_bytes(b: &[u8], off: usize, n: usize) -> (r: Vec<u8>)
    requires
        off + n <= b@.len(),
    ensures
        r@ == bytes_at(b@, off as int, n as int),
{
    // binding the length teaches the prover it fits in usize
    let _buffer_len: usize = b.len();
    let mut out: Vec<u8> = Vec::new();
    let mut i: usize = 0;
    while i < n
        invariant
            off + n <= b@.len(),
            b@.len() <= usize::MAX,
            i <= n,
            out@.len() == i,
            forall|j: int| 0 <= j < i ==> out@[j] == b@[off + j],
        decreases n - i,
    {
        out.push(b[off + i]);
        i = i + 1;
    }
    proof {
        assert(out@ =~= bytes_at(b@, off as int, n as int));
    }
    out
}

pub fn read_bools(b: &[u8], off: usize, n: usize) -> (r: Vec<bool>)
    requires
        off + n <= b@.len(),
    ensures
        r@.len() == n,
        forall|j: int| 0 <= j < n ==> r@[j] == bool_at(b@, off + j),
{
    // binding the length teaches the prover it fits in usize
    let _buffer_len: usize = b.len();
    let mut out: Vec<bool> = Vec::new();
    let mut i: usize = 0;
    while i < n
        invariant
            off + n <= b@.len(),
            b@.len() <= usize::MAX,
            i <= n,
            out@.len() == i,
            forall|j: int| 0 <= j < i ==> out@[j] == bool_at(b@, off + j),
        decreases n - i,
    {
        out.push(b[off + i] != 0);
        i = i + 1;
    }
    out
}

/// Read `rows` consecutive groups of `cols` little-endian 32-bit words each.
pub fn read_u32_rows(b: &[u8], off: usize, rows: usize, cols: usize) -> (r: Vec<Vec<u32>>)
    requires
        off + 4 * cols * rows <= b@.len(),
    ensures
        r@.len() == rows,
        forall|i: int| 0 <= i < rows ==> r@[i]@ == u32s_at(b@, off + 4 * cols * i, cols as int),
{
    // binding the length teaches the prover it fits in usize
    let _buffer_len: usize = b.len();
    let mut out: Vec<Vec<u32>> = Vec::new();
    let mut i: usize = 0;
    while i < rows
        invariant
            off + 4 * cols * rows <= b@.len(),
            b@.len() <= usize::MAX,
            i <= rows,
            out@.len() == i,
            forall|j: int| 0 <= j < i ==> out@[j]@ == u32s_at(b@, off + 4 * cols * j, cols as int),
        decreases rows - i,
    {
        proof {
            assert(4 * cols * i + 4 * cols <= 4 * cols * rows) by (nonlinear_arith)
                requires i < rows, cols >= 0;
        }
        out.push(read_u32s(b, off + 4 * cols * i, cols));
        i = i + 1;
    }
    out
}

/// Read `rows` consecutive groups of `cols` raw bytes each.
pub fn read_byte_rows(b: &[u8], off: usize, rows: usize, cols: usize) -> (r: Vec<Vec<u8>>)
    requires
        off + cols * rows <= b@.len(),
    ensures
        r@.len() == rows,
        forall|i: int| 0 <= i < rows ==> r@[i]@ == bytes_at(b@, off + cols * i, cols as int),
{
    // binding the length teaches the prover it fits in usize
    let _buffer_len: usize = b.len();
    let mut out: Vec<Vec<u8>> = Vec::new();
    let mut i: usize = 0;
    while i < rows
        invariant
            off + cols * rows <= b@.len(),
            b@.len() <= usize::MAX,
            i <= rows,
            out@.len() == i,
            forall|j: int| 0 <= j < i ==> out@[j]@ == bytes_at(b@, off + cols * j, cols as int),
        decreases rows - i,
    {
        proof {
            assert(cols * i + cols <= cols * rows) by (nonlinear_arith)
                requires i < rows, cols >= 0;
        }
        out.push(read_bytes(b, off + cols * i, cols));
        i = i + 1;
    }
    out
}

} // verus!
