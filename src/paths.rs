//! The script path that each worker owns.
use vstd::prelude::*;
use crate::decimal::{decimal, lemma_decimal_injective, push_decimal};

verus! {

/// The byte of the path separator `'/'`.
pub const SEPARATOR: u8 = 47;

/// `base` followed by a separator, unless it is empty or already ends in one.
pub open spec fn dir_prefix(base: Seq<u8>) -> Seq<u8> {
    if base.len() == 0 || base.last() == SEPARATOR {
        base
    } else {
        base.push(SEPARATOR)
    }
}

/// The path of worker `index`'s script: the directory `base` joined with the
/// decimal notation of `index`.
pub open spec fn script_path_of(base: Seq<u8>, index: nat) -> Seq<u8> {
    dir_prefix(base) + decimal(index)
}

/// Two workers with different indices never share a script path.
pub proof fn lemma_script_paths_disjoint(base: Seq<u8>, i: nat, j: nat)
    requires
        i != j,
    ensures
        script_path_of(base, i) != script_path_of(base, j),
{
    let p = dir_prefix(base);
    lemma_decimal_injective(i, j);
    if script_path_of(base, i) == script_path_of(base, j) {
        let a = script_path_of(base, i);
        let b = script_path_of(base, j);
        assert(a.subrange(p.len() as int, a.len() as int) =~= decimal(i));
        assert(b.subrange(p.len() as int, b.len() as int) =~= decimal(j));
    }
}

/// Appends the bytes of `src` to `out`.
pub fn push_bytes(out: &mut Vec<u8>, src: &Vec<u8>)
    ensures
        final(out)@ == old(out)@ + src@,
{
    let mut k: usize = 0;
    while k < src.len()
        invariant
            k <= src.len(),
            out@ == old(out)@ + src@.subrange(0, k as int),
        decreases src.len() - k,
    {
        out.push(src[k]);
        k = k + 1;
        assert(out@ =~= old(out)@ + src@.subrange(0, k as int));
    }
    assert(src@.subrange(0, k as int) =~= src@);
}

/// The path of worker `index`'s script under the directory `base`.
pub fn script_path(base: &Vec<u8>, index: usize) -> (r: Vec<u8>)
    ensures
        r@ == script_path_of(base@, index as nat),
{
    let mut r: Vec<u8> = Vec::new();
    push_bytes(&mut r, base);
    assert(r@ =~= base@);
    if base.len() > 0 && base[base.len() - 1] != SEPARATOR {
        r.push(SEPARATOR);
    }
    push_decimal(&mut r, index);
    r
}

/// The script paths of workers `0 .. count`, in order of index.
pub fn script_paths(base: &Vec<u8>, count: usize) -> (r: Vec<Vec<u8>>)
    ensures
        r.len() == count,
        forall|i: int| 0 <= i < count ==> (#[trigger] r[i])@ == script_path_of(base@, i as nat),
{
    let mut r: Vec<Vec<u8>> = Vec::new();
    let mut i: usize = 0;
    while i < count
        invariant
            i <= count,
            r.len() == i,
            forall|j: int| 0 <= j < i ==> (#[trigger] r[j])@ == script_path_of(base@, j as nat),
        decreases count - i,
    {
        let p = script_path(base, i);
        r.push(p);
        i = i + 1;
    }
    r
}

} // verus!
