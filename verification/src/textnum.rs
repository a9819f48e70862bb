//! Verified text helpers for the clipboard actions: decimal rendering of
//! node identifiers and sorted, duplicate-free node lists.

use vstd::prelude::*;

verus! {

/// The decimal digits of `v`, most significant first.
pub open spec fn u64_dec_spec(v: u64) -> Seq<u8>
    decreases v,
{
    if v < 10 {
        seq![(48 + v) as u8]
    } else {
        u64_dec_spec((v / 10) as u64).push((48 + v % 10) as u8)
    }
}

/// Render `v` in decimal.
pub fn u64_to_decimal(v: u64) -> (r: Vec<u8>)
    ensures
        r@ == u64_dec_spec(v),
{
    let mut digits: Vec<u8> = Vec::new();
    let mut rest: u64 = v;
    let ghost mut suffix: Seq<u8> = Seq::empty();
    while rest >= 10
        invariant
            u64_dec_spec(v) == u64_dec_spec(rest) + suffix,
            digits@.len() == suffix.len(),
            forall|i: int| 0 <= i < digits@.len() ==> digits@[i] == suffix[suffix.len() - 1 - i],
        decreases rest,
    {
        let d = (rest % 10) as u8;
        proof {
            assert(u64_dec_spec(rest) == u64_dec_spec((rest / 10) as u64).push(
                (48 + rest % 10) as u8,
            ));
            assert(u64_dec_spec((rest / 10) as u64).push((48 + rest % 10) as u8) + suffix
                =~= u64_dec_spec((rest / 10) as u64) + (seq![(48 + rest % 10) as u8] + suffix));
        }
        digits.push(48 + d);
        proof {
            suffix = seq![(48 + rest % 10) as u8] + suffix;
        }
        rest = rest / 10;
    }
    proof {
        assert(u64_dec_spec(rest) =~= seq![(48 + rest) as u8]);
        assert(seq![(48 + rest) as u8] + suffix =~= u64_dec_spec(v));
    }
    digits.push(48 + rest as u8);
    proof {
        suffix = seq![(48 + rest) as u8] + suffix;
        assert(u64_dec_spec(v) =~= suffix);
    }
    let mut out: Vec<u8> = Vec::new();
    let mut ix: usize = digits.len();
    while ix > 0
        invariant
            ix <= digits@.len(),
            digits@.len() == suffix.len(),
            forall|i: int| 0 <= i < digits@.len() ==> digits@[i] == suffix[suffix.len() - 1 - i],
            out@.len() == digits@.len() - ix,
            forall|i: int| 0 <= i < out@.len() ==> out@[i] == suffix[i],
        decreases ix,
    {
        ix = ix - 1;
        out.push(digits[ix]);
    }
    proof {
        assert(out@ =~= u64_dec_spec(v));
    }
    out
}

/// A sequence in strictly increasing order: sorted with no duplicates.
pub open spec fn strictly_sorted_u64(s: Seq<u64>) -> bool {
    forall|i: int, j: int| 0 <= i < j < s.len() ==> s[i] < s[j]
}

/// Membership distributes over concatenation, and so does `to_set`.
proof fn lemma_concat_to_set(a: Seq<u64>, b: Seq<u64>)
    ensures
        (a + b).to_set() =~= a.to_set().union(b.to_set()),
{
    assert forall|x: u64| #[trigger] (a + b).contains(x) implies a.contains(x) || b.contains(
        x,
    ) by {
        let i = choose|i: int| 0 <= i < (a + b).len() && (a + b)[i] == x;
        if i < a.len() {
            assert(a[i] == x);
        } else {
            assert(b[i - a.len()] == x);
        }
    }
    assert forall|x: u64| a.contains(x) implies #[trigger] (a + b).contains(x) by {
        let i = choose|i: int| 0 <= i < a.len() && a[i] == x;
        assert((a + b)[i] == x);
    }
    assert forall|x: u64| b.contains(x) implies #[trigger] (a + b).contains(x) by {
        let i = choose|i: int| 0 <= i < b.len() && b[i] == x;
        assert((a + b)[a.len() + i] == x);
    }
}

/// The distinct values of a node list, in increasing order.
pub fn sorted_unique_u64(values: &Vec<u64>) -> (r: Vec<u64>)
    ensures
        strictly_sorted_u64(r@),
        r@.to_set() == values@.to_set(),
{
    let mut out: Vec<u64> = Vec::new();
    let mut ix: usize = 0;
    proof {
        assert(values@.take(0) =~= Seq::<u64>::empty());
        assert(out@.to_set() =~= values@.take(0).to_set());
    }
    while ix < values.len()
        invariant
            ix <= values@.len(),
            strictly_sorted_u64(out@),
            out@.to_set() == values@.take(ix as int).to_set(),
        decreases values@.len() - ix,
    {
        let v = values[ix];
        let mut pos: usize = 0;
        while pos < out.len() && out[pos] < v
            invariant
                pos <= out@.len(),
                forall|i: int| 0 <= i < pos ==> out@[i] < v,
            decreases out@.len() - pos,
        {
            pos = pos + 1;
        }
        proof {
            assert(values@.take(ix as int + 1) =~= values@.take(ix as int).push(v));
            values@.take(ix as int).lemma_push_to_set_commute(v);
        }
        if pos < out.len() && out[pos] == v {
            proof {
                assert(out@.contains(v));
                assert(out@.to_set().insert(v) =~= out@.to_set());
            }
        } else {
            let ghost before = out@;
            out.insert(pos, v);
            proof {
                assert(out@ =~= before.take(pos as int) + seq![v] + before.skip(pos as int));
                assert(before.take(pos as int) + seq![v] + before.skip(pos as int) =~= (
                before.take(pos as int) + seq![v]) + before.skip(pos as int));
                lemma_concat_to_set(before.take(pos as int) + seq![v], before.skip(pos as int));
                lemma_concat_to_set(before.take(pos as int), seq![v]);
                assert(before.take(pos as int) + before.skip(pos as int) =~= before);
                lemma_concat_to_set(before.take(pos as int), before.skip(pos as int));
                assert(seq![v].to_set() =~= Set::<u64>::empty().insert(v)) by {
                    assert(seq![v][0] == v);
                    assert(seq![v].contains(v));
                    assert(forall|x: u64| #[trigger] seq![v].contains(x) ==> x == v);
                }
                assert(out@.to_set() =~= before.to_set().insert(v));
                assert(strictly_sorted_u64(out@)) by {
                    assert(forall|i: int| 0 <= i < pos ==> out@[i] == before[i] && before[i] < v);
                    assert(out@[pos as int] == v);
                    assert(forall|i: int| pos < i < out@.len() ==> out@[i] == before[i - 1]);
                    assert(forall|i: int| pos <= i < before.len() ==> v < before[i]);
                }
            }
        }
        ix = ix + 1;
    }
    proof {
        assert(values@.take(values@.len() as int) =~= values@);
    }
    out
}

/// Append a byte slice to a buffer.
pub fn append_bytes(out: &mut Vec<u8>, src: &[u8])
    ensures
        final(out)@ == old(out)@ + src@,
{
    let mut ix: usize = 0;
    while ix < src.len()
        invariant
            ix <= src@.len(),
            out@ == old(out)@ + src@.take(ix as int),
        decreases src@.len() - ix,
    {
        proof {
            assert(old(out)@ + src@.take(ix as int + 1) =~= (old(out)@ + src@.take(ix as int)).push(
                src@[ix as int],
            ));
        }
        out.push(src[ix]);
        ix = ix + 1;
    }
    proof {
        assert(old(out)@ + src@.take(src@.len() as int) =~= old(out)@ + src@);
    }
}

} // verus!
