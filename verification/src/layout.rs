//! Flat storage layout of the 4x4 matrix type.
//!
//! The matrix keeps its 16 scalars in a flat array, column-major: the entry
//! at column `c`, row `r` lives at offset `r + c * 4`. Every access in the
//! library goes through [`cr`], so the layout policy is decided (and proved
//! injective) in exactly one place.

use vstd::prelude::*;

verus! {

/// Flat offset of the entry at column `c`, row `r` in column-major storage.
pub open spec fn flat_index(c: int, r: int) -> int {
    r + c * 4
}

/// Maps a (column, row) pair to its offset in the flat 16-element storage.
pub fn cr(c: usize, r: usize) -> (i: usize)
    requires
        c < 4,
        r < 4,
    ensures
        i == flat_index(c as int, r as int),
        i < 16,
{
    r + c * 4
}

/// Distinct (column, row) pairs occupy distinct flat offsets.
pub proof fn lemma_flat_index_injective(c1: int, r1: int, c2: int, r2: int)
    requires
        0 <= c1 < 4,
        0 <= r1 < 4,
        0 <= c2 < 4,
        0 <= r2 < 4,
        flat_index(c1, r1) == flat_index(c2, r2),
    ensures
        c1 == c2,
        r1 == r2,
{
}

/// Reads the entry at column `c`, row `r` of a flat 16-element storage.
pub fn mat_get<T: Copy>(m: &[T; 16], c: usize, r: usize) -> (v: T)
    requires
        c < 4,
        r < 4,
    ensures
        v == m@[flat_index(c as int, r as int)],
{
    m[cr(c, r)]
}

/// Writes `v` at column `c`, row `r`, leaving every other entry unchanged.
pub fn mat_set<T: Copy>(m: &mut [T; 16], c: usize, r: usize, v: T)
    requires
        c < 4,
        r < 4,
    ensures
        final(m)@ == old(m)@.update(flat_index(c as int, r as int), v),
{
    m[cr(c, r)] = v;
}

/// The transpose of a flat 16-element storage: entry (c, r) of the result
/// is entry (r, c) of the argument.
pub open spec fn transpose_of<T>(s: Seq<T>) -> Seq<T>
    recommends
        s.len() == 16,
{
    Seq::new(16, |i: int| s[flat_index(i % 4, i / 4)])
}

/// Returns a transposed copy of the 16-element storage.
pub fn transposed<T: Copy>(m: &[T; 16]) -> (out: [T; 16])
    ensures
        out@ == transpose_of(m@),
{
    let mut out: [T; 16] = *m;
    for c in 0..4usize
        invariant
            out@.len() == 16,
            forall|sc: int, sr: int|
                0 <= sc < c && 0 <= sr < 4 ==> out@[flat_index(sr, sc)] == m@[flat_index(sc, sr)],
    {
        for r in 0..4usize
            invariant
                c < 4,
                out@.len() == 16,
                forall|sc: int, sr: int|
                    0 <= sc < c && 0 <= sr < 4 ==> out@[flat_index(sr, sc)] == m@[flat_index(
                        sc,
                        sr,
                    )],
                forall|sr: int|
                    0 <= sr < r ==> out@[flat_index(sr, c as int)] == m@[flat_index(c as int, sr)],
        {
            out[cr(r, c)] = m[cr(c, r)];
        }
    }
    proof {
        assert(out@ =~= transpose_of(m@));
    }
    out
}

/// Flattens a nested 4x4 array: inner array `i`, element `j` becomes the
/// entry at column `i`, row `j` of the flat storage.
pub fn flatten<T: Copy>(d: &[[T; 4]; 4]) -> (out: [T; 16])
    ensures
        forall|i: int, j: int|
            0 <= i < 4 && 0 <= j < 4 ==> out@[flat_index(i, j)] == d@[i]@[j],
{
    [
        d[0][0], d[0][1], d[0][2], d[0][3], d[1][0], d[1][1], d[1][2], d[1][3], d[2][0], d[2][1],
        d[2][2], d[2][3], d[3][0], d[3][1], d[3][2], d[3][3],
    ]
}

/// Transposing twice gives the storage back.
pub proof fn lemma_transpose_involutive<T>(s: Seq<T>)
    requires
        s.len() == 16,
    ensures
        transpose_of(transpose_of(s)) == s,
{
    assert(transpose_of(transpose_of(s)) =~= s);
}

/// A symmetric storage — one that equals its (c, r)/(r, c) mirror — is its
/// own transpose; the identity matrix is the prime example.
pub proof fn lemma_transpose_symmetric_fixpoint<T>(s: Seq<T>)
    requires
        s.len() == 16,
        forall|c: int, r: int|
            0 <= c < 4 && 0 <= r < 4 ==> s[flat_index(c, r)] == s[flat_index(r, c)],
    ensures
        transpose_of(s) == s,
{
    assert(transpose_of(s) =~= s);
}

} // verus!
