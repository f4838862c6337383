//! Little-endian integers and byte-buffer helpers.
use vstd::prelude::*;

verus! {

/// The four little-endian bytes of `v`.
pub open spec fn le_u32(v: u32) -> Seq<u8> {
    seq![(v % 0x100) as u8, ((v / 0x100) % 0x100) as u8, ((v / 0x1_0000) % 0x100) as u8, ((v / 0x100_0000) % 0x100) as u8]
}

/// The eight little-endian bytes of `v`.
pub open spec fn le_u64(v: u64) -> Seq<u8> {
    seq![
        (v % 0x100) as u8,
        ((v / 0x100) % 0x100) as u8,
        ((v / 0x1_0000) % 0x100) as u8,
        ((v / 0x100_0000) % 0x100) as u8,
        ((v / 0x1_0000_0000) % 0x100) as u8,
        ((v / 0x100_0000_0000) % 0x100) as u8,
        ((v / 0x1_0000_0000_0000) % 0x100) as u8,
        ((v / 0x100_0000_0000_0000) % 0x100) as u8,
    ]
}

/// The value of four little-endian bytes.
pub open spec fn u32_of(b: Seq<u8>) -> u32 {
    (b[0] as int + b[1] as int * 0x100 + b[2] as int * 0x1_0000 + b[3] as int * 0x100_0000) as u32
}

/// The value of eight little-endian bytes.
pub open spec fn u64_of(b: Seq<u8>) -> u64 {
    (b[0] as int + b[1] as int * 0x100 + b[2] as int * 0x1_0000 + b[3] as int * 0x100_0000
        + b[4] as int * 0x1_0000_0000 + b[5] as int * 0x100_0000_0000
        + b[6] as int * 0x1_0000_0000_0000 + b[7] as int * 0x100_0000_0000_0000) as u64
}

/// `u32::to_le_bytes`.
pub fn u32_to_le(v: u32) -> (r: [u8; 4])
    ensures
        r@ == le_u32(v),
{
    [(v % 0x100) as u8, ((v / 0x100) % 0x100) as u8, ((v / 0x1_0000) % 0x100) as u8, ((v / 0x100_0000) % 0x100) as u8]
}

/// `u64::to_le_bytes`.
pub fn u64_to_le(v: u64) -> (r: [u8; 8])
    ensures
        r@ == le_u64(v),
{
    [
        (v % 0x100) as u8,
        ((v / 0x100) % 0x100) as u8,
        ((v / 0x1_0000) % 0x100) as u8,
        ((v / 0x100_0000) % 0x100) as u8,
        ((v / 0x1_0000_0000) % 0x100) as u8,
        ((v / 0x100_0000_0000) % 0x100) as u8,
        ((v / 0x1_0000_0000_0000) % 0x100) as u8,
        ((v / 0x100_0000_0000_0000) % 0x100) as u8,
    ]
}

/// Reads a little-endian `u32` at `pos`.
pub fn read_u32_at(data: &[u8], pos: usize) -> (r: u32)
    requires
        pos + 4 <= data@.len(),
    ensures
        r == u32_of(data@.subrange(pos as int, pos + 4)),
{
    let r = data[pos] as u32 + data[pos + 1] as u32 * 0x100 + data[pos + 2] as u32 * 0x1_0000
        + data[pos + 3] as u32 * 0x100_0000;
    r
}

/// Reads a little-endian `u64` at `pos`.
pub fn read_u64_at(data: &[u8], pos: usize) -> (r: u64)
    requires
        pos + 8 <= data@.len(),
    ensures
        r == u64_of(data@.subrange(pos as int, pos + 8)),
{
    data[pos] as u64 + data[pos + 1] as u64 * 0x100 + data[pos + 2] as u64 * 0x1_0000
        + data[pos + 3] as u64 * 0x100_0000 + data[pos + 4] as u64 * 0x1_0000_0000
        + data[pos + 5] as u64 * 0x100_0000_0000 + data[pos + 6] as u64 * 0x1_0000_0000_0000
        + data[pos + 7] as u64 * 0x100_0000_0000_0000
}

/// Appends `b` to `out`.
pub fn push_all(out: &mut Vec<u8>, b: &[u8])
    ensures
        final(out)@ == old(out)@ + b@,
{
    let mut k: usize = 0;
    while k < b.len()
        invariant
            k <= b@.len(),
            out@ == old(out)@ + b@.take(k as int),
        decreases b.len() - k,
    {
        out.push(b[k]);
        k = k + 1;
        assert(out@ =~= old(out)@ + b@.take(k as int));
    }
    assert(b@.take(b@.len() as int) =~= b@);
}

/// Appends `data[from..to]` to `out`.
pub fn push_range(out: &mut Vec<u8>, data: &[u8], from: usize, to: usize)
    requires
        from <= to <= data@.len(),
    ensures
        final(out)@ == old(out)@ + data@.subrange(from as int, to as int),
{
    let mut k: usize = from;
    while k < to
        invariant
            from <= k <= to <= data@.len(),
            out@ == old(out)@ + data@.subrange(from as int, k as int),
        decreases to - k,
    {
        out.push(data[k]);
        k = k + 1;
        assert(out@ =~= old(out)@ + data@.subrange(from as int, k as int));
    }
}

/// Appends the UTF-8 bytes of `s` and a terminating zero byte.
pub fn push_cstr(out: &mut Vec<u8>, s: &str)
    ensures
        final(out)@ == old(out)@ + vstd::utf8::encode_utf8(s@) + seq![0u8],
{
    let b = s.as_bytes();
    push_all(out, b);
    out.push(0);
    assert(out@ =~= old(out)@ + vstd::utf8::encode_utf8(s@) + seq![0u8]);
}


/// Reading back the four little-endian bytes of a number gives the number.
pub proof fn lemma_le_u32_read_back(v: u32)
    ensures
        u32_of(le_u32(v)) == v,
{
    let b0 = v % 0x100;
    let b1 = (v / 0x100) % 0x100;
    let b2 = (v / 0x1_0000) % 0x100;
    let b3 = (v / 0x100_0000) % 0x100;
    assert(b0 + b1 * 0x100 + b2 * 0x1_0000 + b3 * 0x100_0000 == v) by (nonlinear_arith)
        requires
            b0 == v % 0x100,
            b1 == (v / 0x100) % 0x100,
            b2 == (v / 0x1_0000) % 0x100,
            b3 == (v / 0x100_0000) % 0x100,
            v < 0x1_0000_0000,
    ;
}

} // verus!
