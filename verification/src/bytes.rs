use vstd::prelude::*;

verus! {

/// The big-endian 16-bit value stored at offset `i` of `b`.
pub open spec fn be_u16_at(b: Seq<u8>, i: int) -> int
    recommends
        0 <= i,
        i + 2 <= b.len(),
{
    (b[i] as int) * 256 + (b[i + 1] as int)
}

/// Whether the bytes of `a` equal the bytes of `b`.
pub fn bytes_eq(a: &Vec<u8>, b: &Vec<u8>) -> (r: bool)
    ensures
        r == (a@ == b@),
{
    if a.len() != b.len() {
        assert(a@ != b@);
        return false;
    }
    let n: usize = a.len();
    let mut i: usize = 0;
    while i < n
        invariant
            n == a.len() == b.len(),
            i <= n,
            forall|j: int| 0 <= j < i ==> a@[j] == b@[j],
        decreases n - i,
    {
        if a[i] != b[i] {
            return false;
        }
        i += 1;
    }
    assert(a@ =~= b@);
    true
}

/// Whether the bytes of `v` starting at `start` match `pat` exactly.
pub fn region_matches(v: &Vec<u8>, start: usize, pat: &Vec<u8>) -> (r: bool)
    requires
        start + pat@.len() <= v@.len(),
    ensures
        r == (v@.subrange(start as int, start as int + pat@.len() as int) == pat@),
{
    let n: usize = pat.len();
    let ghost region = v@.subrange(start as int, start as int + pat@.len() as int);
    let mut i: usize = 0;
    while i < n
        invariant
            n == pat.len(),
            start + n <= v.len(),
            i <= n,
            region == v@.subrange(start as int, start as int + n as int),
            forall|j: int| 0 <= j < i ==> v@[start + j] == pat@[j],
        decreases n - i,
    {
        if v[start + i] != pat[i] {
            assert(region[i as int] != pat@[i as int]);
            return false;
        }
        i += 1;
    }
    assert(region =~= pat@);
    true
}

/// A copy of the `n` bytes of `v` that start at `start`.
pub fn read_bytes(v: &Vec<u8>, start: usize, n: usize) -> (r: Vec<u8>)
    requires
        start + n <= v@.len(),
    ensures
        r@ == v@.subrange(start as int, start as int + n as int),
{
    let mut out: Vec<u8> = Vec::new();
    let mut i: usize = 0;
    while i < n
        invariant
            start + n <= v.len(),
            i <= n,
            out@.len() == i,
            forall|j: int| 0 <= j < i ==> out@[j] == v@[start + j],
        decreases n - i,
    {
        out.push(v[start + i]);
        i += 1;
    }
    assert(out@ =~= v@.subrange(start as int, start as int + n as int));
    out
}

/// The big-endian 16-bit value stored at offset `i` of `v`.
pub fn read_be_u16(v: &Vec<u8>, i: usize) -> (r: u16)
    requires
        i + 2 <= v@.len(),
    ensures
        r as int == be_u16_at(v@, i as int),
{
    let n: usize = v.len();
    assert(i + 2 <= n);
    let hi: u16 = v[i] as u16;
    let lo: u16 = v[i + 1] as u16;
    hi * 256 + lo
}

} // verus!
