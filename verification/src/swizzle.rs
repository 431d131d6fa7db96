//! Swizzle accessors: reordering vector or color components by letter key.
//!
//! A swizzle key such as `"zxy"` or `"wzyx"` names two to four components of
//! a source value, with repetition allowed, and selects them in exactly that
//! order. The letters come from one of two alphabets — `x`, `y`, `z`, `w`
//! for the vector types and `r`, `g`, `b`, `a` for the color type — and a
//! letter is only meaningful when its position lies below the arity of the
//! source (a two-component vector has no `z`). Rather than one hand-written
//! accessor per letter combination, the whole combinatorial surface is this
//! one key-driven lookup.

use vstd::prelude::*;
use vstd::string::StrSliceExecFns;

verus! {

/// The two component-name alphabets of the library.
#[derive(Clone, Copy, Debug, PartialEq, Eq, Structural)]
pub enum Naming {
    /// Vector components `x`, `y`, `z`, `w`.
    Xyzw,
    /// Color channels `r`, `g`, `b`, `a`.
    Rgba,
}

/// Position of a component letter within its alphabet.
pub open spec fn component_index(naming: Naming, name: char) -> Option<u8> {
    match naming {
        Naming::Xyzw => if name == 'x' {
            Some(0u8)
        } else if name == 'y' {
            Some(1u8)
        } else if name == 'z' {
            Some(2u8)
        } else if name == 'w' {
            Some(3u8)
        } else {
            None
        },
        Naming::Rgba => if name == 'r' {
            Some(0u8)
        } else if name == 'g' {
            Some(1u8)
        } else if name == 'b' {
            Some(2u8)
        } else if name == 'a' {
            Some(3u8)
        } else {
            None
        },
    }
}

/// Looks a component letter up in its alphabet.
pub fn lookup_component(naming: Naming, name: char) -> (r: Option<u8>)
    ensures
        r == component_index(naming, name),
{
    match naming {
        Naming::Xyzw => if name == 'x' {
            Some(0u8)
        } else if name == 'y' {
            Some(1u8)
        } else if name == 'z' {
            Some(2u8)
        } else if name == 'w' {
            Some(3u8)
        } else {
            None
        },
        Naming::Rgba => if name == 'r' {
            Some(0u8)
        } else if name == 'g' {
            Some(1u8)
        } else if name == 'b' {
            Some(2u8)
        } else if name == 'a' {
            Some(3u8)
        } else {
            None
        },
    }
}

/// A key is valid for a source of `arity` components when it has two to
/// four letters and each letter names a component below `arity`.
pub open spec fn valid_key(naming: Naming, key: Seq<char>, arity: int) -> bool {
    2 <= key.len() <= 4 && forall|i: int|
        0 <= i < key.len() ==> ((#[trigger] component_index(naming, key[i])) matches Some(j) && j
            < arity)
}

/// The component positions a key selects, in key order.
pub open spec fn key_indices(naming: Naming, key: Seq<char>) -> Seq<u8> {
    Seq::new(key.len(), |i: int| component_index(naming, key[i])->Some_0)
}

/// The components of `src` at `indices`, in that exact order.
pub open spec fn swizzled<T>(src: Seq<T>, indices: Seq<u8>) -> Seq<T> {
    Seq::new(indices.len(), |i: int| src[indices[i] as int])
}

/// Resolves a swizzle key against a source arity: the selected component
/// positions in key order, or `None` exactly when the key is not valid.
pub fn swizzle_indices(naming: Naming, key: &str, arity: usize) -> (r: Option<Vec<u8>>)
    requires
        arity <= 4,
    ensures
        r is Some <==> valid_key(naming, key@, arity as int),
        r matches Some(v) ==> v@ == key_indices(naming, key@),
{
    let n = key.unicode_len();
    if n < 2 || n > 4 {
        return None;
    }
    let mut out: Vec<u8> = Vec::new();
    let mut i: usize = 0;
    while i < n
        invariant
            2 <= n <= 4,
            n == key@.len(),
            i <= n,
            arity <= 4,
            out@.len() == i,
            forall|k: int|
                0 <= k < i ==> ((#[trigger] component_index(naming, key@[k])) matches Some(j) && j
                    < arity && out@[k] == j),
        decreases n - i,
    {
        let name = key.get_char(i);
        match lookup_component(naming, name) {
            Some(j) => {
                if j as usize >= arity {
                    return None;
                }
                out.push(j);
            },
            None => {
                return None;
            },
        }
        i += 1;
    }
    proof {
        assert(out@ =~= key_indices(naming, key@));
    }
    Some(out)
}

/// Copies the components of `src` at `indices`, in that exact order.
pub fn select<T: Copy>(src: &[T], indices: &[u8]) -> (out: Vec<T>)
    requires
        forall|i: int| 0 <= i < indices@.len() ==> indices@[i] < src@.len(),
    ensures
        out@ == swizzled(src@, indices@),
{
    let mut out: Vec<T> = Vec::new();
    let mut i: usize = 0;
    while i < indices.len()
        invariant
            i <= indices@.len(),
            out@.len() == i,
            forall|k: int| 0 <= k < indices@.len() ==> indices@[k] < src@.len(),
            forall|k: int| 0 <= k < i ==> out@[k] == src@[indices@[k] as int],
        decreases indices@.len() - i,
    {
        let j = indices[i] as usize;
        out.push(src[j]);
        i += 1;
    }
    proof {
        assert(out@ =~= swizzled(src@, indices@));
    }
    out
}

/// Applies a swizzle key to a source: the components the key names, in key
/// order, or `None` exactly when the key is not valid for the source arity.
pub fn swizzle<T: Copy>(naming: Naming, src: &[T], key: &str) -> (r: Option<Vec<T>>)
    requires
        src@.len() <= 4,
    ensures
        r is Some <==> valid_key(naming, key@, src@.len() as int),
        r matches Some(v) ==> v@ == swizzled(src@, key_indices(naming, key@)),
{
    match swizzle_indices(naming, key, src.len()) {
        Some(idx) => {
            proof {
                assert forall|i: int| 0 <= i < idx@.len() implies idx@[i] < src@.len() by {
                    assert(component_index(naming, key@[i]) matches Some(j) && j < src@.len());
                }
            }
            Some(select(src, idx.as_slice()))
        },
        None => None,
    }
}

} // verus!
