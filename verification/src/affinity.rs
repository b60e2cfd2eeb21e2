//! The CPU affinity bitmap: for CPU index `c`, bit `c mod 8` of byte
//! `c div 8` is set in a growable byte array.  An empty set of indices is
//! never encoded as an empty array; the marshaller omits the property
//! instead, which means "no restriction".

use vstd::pervasive::VecAdditionalExecFns;
use vstd::prelude::*;

verus! {

/// Whether the bitmap has the bit of CPU index `c` set.
pub open spec fn cpu_in_bitmap(bm: Seq<u8>, c: usize) -> bool {
    &&& c / 8 < bm.len()
    &&& (bm[c as int / 8] >> ((c % 8) as u8)) & 1 == 1
}

/// The set of CPU indices a bitmap holds: its decoding.
pub open spec fn bitmap_cpus(bm: Seq<u8>) -> Set<usize> {
    Set::new(|c: usize| cpu_in_bitmap(bm, c))
}

/// The bitmap grown with zero bytes to hold at least `n` bytes.
pub open spec fn grown(bm: Seq<u8>, n: int) -> Seq<u8> {
    if bm.len() < n {
        bm + Seq::new((n - bm.len()) as nat, |_i: int| 0u8)
    } else {
        bm
    }
}

/// The bitmap with the bit of CPU index `c` set, grown as needed.
pub open spec fn set_cpu(bm: Seq<u8>, c: usize) -> Seq<u8> {
    let g = grown(bm, c as int / 8 + 1);
    g.update(c as int / 8, g[c as int / 8] | (1u8 << ((c % 8) as u8)))
}

/// The bitmap of a sequence of CPU indices, built left to right.
pub open spec fn cpu_bitmap(cpus: Seq<usize>) -> Seq<u8>
    decreases cpus.len(),
{
    if cpus.len() == 0 {
        Seq::empty()
    } else {
        set_cpu(cpu_bitmap(cpus.drop_last()), cpus.last())
    }
}

proof fn lemma_grown_bits(bm: Seq<u8>, n: int, c: usize)
    ensures
        cpu_in_bitmap(grown(bm, n), c) == cpu_in_bitmap(bm, c),
{
    let g = grown(bm, n);
    if c / 8 < bm.len() {
        assert(g[c as int / 8] == bm[c as int / 8]);
    } else if c / 8 < g.len() {
        assert(g[c as int / 8] == 0u8);
        let k = (c % 8) as u8;
        assert((0u8 >> k) & 1 == 0) by (bit_vector);
    }
}

proof fn lemma_set_cpu_bits(bm: Seq<u8>, c: usize, c2: usize)
    ensures
        cpu_in_bitmap(set_cpu(bm, c), c2) == (cpu_in_bitmap(bm, c2) || c2 == c),
{
    let g = grown(bm, c as int / 8 + 1);
    let s = set_cpu(bm, c);
    let y = (c % 8) as u8;
    let k = (c2 % 8) as u8;
    lemma_grown_bits(bm, c as int / 8 + 1, c2);
    assert(s.len() == g.len());
    if c2 / 8 == c / 8 {
        let b = g[c as int / 8];
        assert(y < 8 && k < 8);
        if k == y {
            assert(((b | (1u8 << y)) >> k) & 1 == 1) by (bit_vector)
                requires
                    k == y && y < 8,
            ;
            // Same byte and same bit position means the same CPU index.
            assert(c2 == (c2 / 8) * 8 + (c2 % 8)) by (nonlinear_arith);
            assert(c == (c / 8) * 8 + (c % 8)) by (nonlinear_arith);
            assert(c2 == c);
        } else {
            assert(((b | (1u8 << y)) >> k) & 1 == (b >> k) & 1) by (bit_vector)
                requires
                    k != y && y < 8 && k < 8,
            ;
        }
    } else {
        assert(s[c2 as int / 8] == g[c2 as int / 8] || c2 as int / 8 >= s.len());
    }
}

/// Decoding the bitmap of a sequence of CPU indices recovers exactly the
/// set of those indices.
pub proof fn lemma_cpu_bitmap_round_trip(cpus: Seq<usize>)
    ensures
        bitmap_cpus(cpu_bitmap(cpus)) =~= cpus.to_set(),
    decreases cpus.len(),
{
    if cpus.len() == 0 {
        assert forall|c: usize| !cpu_in_bitmap(cpu_bitmap(cpus), c) by {}
        assert(cpus.to_set() =~= Set::empty());
    } else {
        lemma_cpu_bitmap_round_trip(cpus.drop_last());
        assert forall|c: usize|
            cpu_in_bitmap(cpu_bitmap(cpus), c) == (cpus.drop_last().to_set().contains(c) || c
                == cpus.last()) by {
            lemma_set_cpu_bits(cpu_bitmap(cpus.drop_last()), cpus.last(), c);
            assert(cpu_in_bitmap(cpu_bitmap(cpus.drop_last()), c) == cpus.drop_last(
            ).to_set().contains(c));
        }
        assert(cpus.to_set() =~= cpus.drop_last().to_set().insert(cpus.last())) by {
            assert forall|c: usize| cpus.to_set().contains(c) implies cpus.drop_last(
            ).to_set().contains(c) || c == cpus.last() by {
                let i = choose|i: int| 0 <= i < cpus.len() && cpus[i] == c;
                if i < cpus.len() - 1 {
                    assert(cpus.drop_last()[i] == c);
                }
            }
            assert forall|c: usize| cpus.drop_last().to_set().contains(c) implies
                cpus.to_set().contains(c) by {
                let i = choose|i: int| 0 <= i < cpus.len() - 1 && cpus.drop_last()[i] == c;
                assert(cpus[i] == c);
            }
            assert(cpus.to_set().contains(cpus.last()));
        }
    }
}

/// Encode a list of CPU indices as the affinity bitmap.
pub fn encode_cpus(cpus: &Vec<usize>) -> (r: Vec<u8>)
    ensures
        r@ == cpu_bitmap(cpus@),
{
    let mut bm: Vec<u8> = Vec::new();
    let n = cpus.len();
    for i in 0..n
        invariant
            n == cpus@.len(),
            bm@ == cpu_bitmap(cpus@.take(i as int)),
    {
        let cpu = cpus[i];
        let x = cpu / 8;
        let y = (cpu % 8) as u8;
        let ghost pre = bm@;
        while bm.len() <= x
            invariant
                bm@ == grown(pre, bm@.len() as int),
                pre.len() <= x ==> bm@.len() <= x + 1,
                pre.len() > x ==> bm@ == pre,
            decreases x + 1 - bm@.len(),
        {
            bm.push(0u8);
            proof {
                assert(bm@ =~= grown(pre, bm@.len() as int));
            }
        }
        proof {
            assert(bm@ =~= grown(pre, x + 1));
        }
        let b = bm[x];
        bm.set(x, b | (1u8 << y));
        proof {
            assert(cpus@.take(i + 1).drop_last() =~= cpus@.take(i as int));
            assert(cpus@.take(i + 1).last() == cpus@[i as int]);
            assert(bm@ =~= set_cpu(pre, cpu));
        }
    }
    proof {
        assert(cpus@.take(n as int) =~= cpus@);
    }
    bm
}

} // verus!
