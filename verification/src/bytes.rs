//! Fixed-width byte fields: comparison, zero tests and null padding.

use vstd::prelude::*;

verus! {

/// True when every byte of `s` is zero. An all-zero field stands for "unset".
pub open spec fn all_zero(s: Seq<u8>) -> bool {
    forall|i: int| 0 <= i < s.len() ==> s[i] == 0u8
}

/// `s` followed by zeros up to `width` bytes. Only meaningful when `s` fits.
pub open spec fn padded(s: Seq<u8>, width: nat) -> Seq<u8> {
    Seq::new(width, |i: int| if i < s.len() { s[i] } else { 0u8 })
}

/// `n` zero bytes: an unset field.
pub open spec fn zeros(n: nat) -> Seq<u8> {
    Seq::new(n, |i: int| 0u8)
}

/// Tests whether a fixed-width field is unset (all zero).
pub fn is_all_zero<const N: usize>(a: &[u8; N]) -> (r: bool)
    ensures
        r == all_zero(a@),
{
    let mut i: usize = 0;
    while i < N
        invariant
            i <= N,
            forall|j: int| 0 <= j < i ==> a@[j] == 0u8,
        decreases N - i,
    {
        if a[i] != 0 {
            return false;
        }
        i += 1;
    }
    true
}

/// Compares two fixed-width fields byte by byte.
pub fn bytes_equal<const N: usize>(a: &[u8; N], b: &[u8; N]) -> (r: bool)
    ensures
        r == (a@ == b@),
{
    let mut i: usize = 0;
    while i < N
        invariant
            i <= N,
            forall|j: int| 0 <= j < i ==> a@[j] == b@[j],
        decreases N - i,
    {
        if a[i] != b[i] {
            return false;
        }
        i += 1;
    }
    assert(a@ =~= b@);
    true
}

/// Compares a byte string with a fixed-width field.
pub fn slice_matches<const N: usize>(s: &[u8], field: &[u8; N]) -> (r: bool)
    ensures
        r == (s@ == field@),
{
    if s.len() != N {
        return false;
    }
    let mut i: usize = 0;
    while i < N
        invariant
            i <= N,
            s@.len() == N,
            forall|j: int| 0 <= j < i ==> s@[j] == field@[j],
        decreases N - i,
    {
        if s[i] != field[i] {
            return false;
        }
        i += 1;
    }
    assert(s@ =~= field@);
    true
}

/// Copies `src` into a zeroed field of `N` bytes. `None` when `src` is too long.
pub fn pad_bytes<const N: usize>(src: &[u8]) -> (r: Option<[u8; N]>)
    ensures
        src@.len() <= N ==> r is Some && r->0@ == padded(src@, N as nat),
        src@.len() > N ==> r is None,
{
    if src.len() > N {
        return None;
    }
    let mut out: [u8; N] = [0u8; N];
    let mut i: usize = 0;
    while i < src.len()
        invariant
            i <= src@.len() <= N,
            forall|j: int| 0 <= j < i ==> out@[j] == src@[j],
            forall|j: int| i <= j < N ==> out@[j] == 0u8,
        decreases src@.len() - i,
    {
        out[i] = src[i];
        i += 1;
    }
    assert(out@ =~= padded(src@, N as nat));
    Some(out)
}

} // verus!
