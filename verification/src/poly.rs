//! The wire form of a polynomial: its 256 coefficients, each as two bytes,
//! little-endian (`i16::from_le_bytes` / `i16::to_le_bytes`).
use vstd::prelude::*;

verus! {

/// The number of coefficients of a polynomial.
pub const N: usize = 256;

/// The bytes of a polynomial in wire form.
pub const POLY_BYTES: usize = 512;

/// The coefficient that two little-endian bytes stand for (two's complement).
pub open spec fn le_i16(lo: u8, hi: u8) -> i16 {
    let v = lo as int + 256 * hi as int;
    (if v >= 32768 {
        v - 65536
    } else {
        v
    }) as i16
}

/// The unsigned 16-bit pattern of a coefficient.
pub open spec fn bits_of(w: i16) -> int {
    if w < 0 {
        w + 65536
    } else {
        w as int
    }
}

/// The coefficients that the first 512 bytes stand for.
pub open spec fn coeffs_of(bytes: Seq<u8>) -> Seq<i16> {
    Seq::new(N as nat, |i: int| le_i16(bytes[2 * i], bytes[2 * i + 1]))
}

/// The wire form of a list of coefficients: two bytes each, the low byte first.
pub open spec fn le_bytes_of(coeffs: Seq<i16>) -> Seq<u8> {
    Seq::new(
        2 * coeffs.len(),
        |k: int|
            if k % 2 == 0 {
                (bits_of(coeffs[k / 2]) % 256) as u8
            } else {
                (bits_of(coeffs[k / 2]) / 256) as u8
            },
    )
}

fn coeff_from_le(lo: u8, hi: u8) -> (w: i16)
    ensures
        w == le_i16(lo, hi),
{
    let v: i32 = lo as i32 + 256 * (hi as i32);
    if v >= 32768 {
        (v - 65536) as i16
    } else {
        v as i16
    }
}

/// Reads the 256 coefficients of a polynomial from the first 512 bytes.
pub fn coeffs_from_le_bytes(bytes: &[u8]) -> (res: Vec<i16>)
    requires
        bytes@.len() >= POLY_BYTES,
    ensures
        res@ == coeffs_of(bytes@),
{
    let mut res: Vec<i16> = Vec::new();
    let mut i: usize = 0;
    while i < N
        invariant
            i <= N,
            bytes@.len() >= POLY_BYTES,
            res@.len() == i,
            forall|j: int| 0 <= j < i ==> res@[j] == le_i16(bytes@[2 * j], bytes@[2 * j + 1]),
        decreases N - i,
    {
        let w = coeff_from_le(bytes[2 * i], bytes[2 * i + 1]);
        res.push(w);
        i = i + 1;
    }
    assert(res@ =~= coeffs_of(bytes@));
    res
}

/// Writes coefficients in wire form: two bytes each, the low byte first.
pub fn coeffs_to_le_bytes(coeffs: &[i16]) -> (res: Vec<u8>)
    requires
        2 * coeffs@.len() <= usize::MAX,
    ensures
        res@ == le_bytes_of(coeffs@),
{
    let mut res: Vec<u8> = Vec::new();
    let mut i: usize = 0;
    while i < coeffs.len()
        invariant
            i <= coeffs@.len(),
            res@.len() == 2 * i,
            forall|k: int| 0 <= k < 2 * i ==> res@[k] == le_bytes_of(coeffs@)[k],
        decreases coeffs.len() - i,
    {
        let w = coeffs[i];
        let u: i32 = if w < 0 {
            w as i32 + 65536
        } else {
            w as i32
        };
        res.push((u % 256) as u8);
        res.push((u / 256) as u8);
        proof {
            assert(u == bits_of(coeffs@[i as int]));
            assert((2 * i as int) / 2 == i);
            assert((2 * i as int + 1) / 2 == i);
            assert((2 * i as int) % 2 == 0);
            assert((2 * i as int + 1) % 2 == 1);
        }
        i = i + 1;
    }
    assert(res@ =~= le_bytes_of(coeffs@));
    res
}

/// Writing 256 coefficients and reading them back gives them unchanged.
pub proof fn lemma_coeffs_round_trip(coeffs: Seq<i16>)
    requires
        coeffs.len() == N,
    ensures
        coeffs_of(le_bytes_of(coeffs)) == coeffs,
{
    let bytes = le_bytes_of(coeffs);
    assert forall|i: int| 0 <= i < N implies #[trigger] coeffs_of(bytes)[i] == coeffs[i] by {
        assert((2 * i) / 2 == i && (2 * i) % 2 == 0);
        assert((2 * i + 1) / 2 == i && (2 * i + 1) % 2 == 1);
        let u = bits_of(coeffs[i]);
        assert(0 <= u < 65536);
        assert(u == u % 256 + 256 * (u / 256));
    }
    assert(coeffs_of(bytes) =~= coeffs);
}

/// Reading 512 bytes as coefficients and writing them back gives the bytes unchanged.
pub proof fn lemma_bytes_round_trip(bytes: Seq<u8>)
    requires
        bytes.len() == POLY_BYTES,
    ensures
        le_bytes_of(coeffs_of(bytes)) == bytes,
{
    let coeffs = coeffs_of(bytes);
    assert forall|k: int| 0 <= k < POLY_BYTES implies #[trigger] le_bytes_of(coeffs)[k]
        == bytes[k] by {
        let i = k / 2;
        let lo = bytes[2 * i];
        let hi = bytes[2 * i + 1];
        let v = lo as int + 256 * hi as int;
        assert(bits_of(coeffs[i]) == v);
        assert(v % 256 == lo as int) by (nonlinear_arith)
            requires v == lo as int + 256 * hi as int, 0 <= lo < 256;
        assert(v / 256 == hi as int) by (nonlinear_arith)
            requires v == lo as int + 256 * hi as int, 0 <= lo < 256;
        if k % 2 == 0 {
            assert(k == 2 * i);
        } else {
            assert(k == 2 * i + 1);
        }
    }
    assert(le_bytes_of(coeffs) =~= bytes);
}

/// Read as coefficients, the bytes give 256 of them, and coefficient j is the one
/// whose 16-bit two's-complement pattern is byte 2j + 256 · byte 2j+1: the low
/// byte first.
pub proof fn lemma_coeffs_are_little_endian(bytes: Seq<u8>)
    requires
        bytes.len() >= POLY_BYTES,
    ensures
        coeffs_of(bytes).len() == N,
        forall|j: int|
            0 <= j < N ==> (#[trigger] coeffs_of(bytes)[j] as int + 65536) % 65536 == bytes[2 * j]
                as int + 256 * bytes[2 * j + 1] as int,
{
    assert forall|j: int| 0 <= j < N implies (#[trigger] coeffs_of(bytes)[j] as int + 65536) % 65536
        == bytes[2 * j] as int + 256 * bytes[2 * j + 1] as int by {
        let v = bytes[2 * j] as int + 256 * bytes[2 * j + 1] as int;
        assert(0 <= v < 65536);
        if v >= 32768 {
            assert(coeffs_of(bytes)[j] as int == v - 65536);
            assert((v - 65536 + 65536) % 65536 == v);
        } else {
            assert(coeffs_of(bytes)[j] as int == v);
            assert((v + 65536) % 65536 == v);
        }
    }
}

/// In wire form, coefficient j gives bytes 2j and 2j+1, the low byte first:
/// byte 2j + 256 · byte 2j+1 is the coefficient's 16-bit two's-complement pattern.
pub proof fn lemma_wire_form_is_little_endian(coeffs: Seq<i16>)
    ensures
        le_bytes_of(coeffs).len() == 2 * coeffs.len(),
        forall|j: int|
            0 <= j < coeffs.len() ==> le_bytes_of(coeffs)[2 * j] as int + 256 * le_bytes_of(
                coeffs,
            )[2 * j + 1] as int == (#[trigger] coeffs[j] as int + 65536) % 65536,
{
    assert forall|j: int| 0 <= j < coeffs.len() implies le_bytes_of(coeffs)[2 * j] as int + 256
        * le_bytes_of(coeffs)[2 * j + 1] as int == (#[trigger] coeffs[j] as int + 65536) % 65536 by {
        assert((2 * j) / 2 == j && (2 * j) % 2 == 0);
        assert((2 * j + 1) / 2 == j && (2 * j + 1) % 2 == 1);
        let u = bits_of(coeffs[j]);
        assert(0 <= u < 65536);
        assert(u == u % 256 + 256 * (u / 256));
        assert(u == (coeffs[j] as int + 65536) % 65536);
    }
}

} // verus!
