use vstd::prelude::*;

verus! {

broadcast use vstd::seq_lib::group_seq_properties;

/// The views of a list of byte strings.
pub open spec fn byte_views(s: Seq<Vec<u8>>) -> Seq<Seq<u8>> {
    Seq::new(s.len(), |i: int| s[i]@)
}

/// ASCII lower-casing of one byte; other bytes are unchanged.
pub open spec fn ascii_lower(b: u8) -> u8 {
    if 65 <= b <= 90 {
        (b + 32) as u8
    } else {
        b
    }
}

/// A file name is a candidate frame when it ends, case-insensitively, in
/// `.jpg` or `.png`, with at least one byte before the dot.
pub open spec fn candidate_name(name: Seq<u8>) -> bool {
    let n = name.len() as int;
    &&& name.len() >= 5
    &&& name[n - 4] == 46u8  // '.'
    &&& {
        let x = ascii_lower(name[n - 3]);
        let y = ascii_lower(name[n - 2]);
        let z = ascii_lower(name[n - 1]);
        // "jpg" or "png"
        (x == 106u8 && y == 112u8 && z == 103u8) || (x == 112u8 && y == 110u8 && z == 103u8)
    }
}

/// Byte-wise lexicographic order on byte strings: a prefix comes before any
/// extension of it; otherwise the first differing byte decides.
pub open spec fn lex_leq(a: Seq<u8>, b: Seq<u8>) -> bool
    decreases a.len(),
{
    if a.len() == 0 {
        true
    } else if b.len() == 0 {
        false
    } else if a[0] < b[0] {
        true
    } else if a[0] > b[0] {
        false
    } else {
        lex_leq(a.drop_first(), b.drop_first())
    }
}

/// The order is total: of any two byte strings one comes no later than the
/// other.
pub proof fn lemma_lex_total(a: Seq<u8>, b: Seq<u8>)
    ensures
        lex_leq(a, b) || lex_leq(b, a),
    decreases a.len(),
{
    if a.len() == 0 || b.len() == 0 {
    } else if a[0] == b[0] {
        lemma_lex_total(a.drop_first(), b.drop_first());
    }
}

/// The order is transitive.
pub proof fn lemma_lex_trans(a: Seq<u8>, b: Seq<u8>, c: Seq<u8>)
    requires
        lex_leq(a, b),
        lex_leq(b, c),
    ensures
        lex_leq(a, c),
    decreases a.len(),
{
    if a.len() == 0 {
    } else if b.len() == 0 {
        assert(false);
    } else if c.len() == 0 {
        assert(false);
    } else if a[0] == b[0] && b[0] == c[0] {
        lemma_lex_trans(a.drop_first(), b.drop_first(), c.drop_first());
    }
}

/// The candidate test as a first-class predicate, for use with `Seq::filter`.
pub open spec fn candidate_pred() -> spec_fn(Seq<u8>) -> bool {
    |s: Seq<u8>| candidate_name(s)
}

/// A sequence of byte strings is sorted when every pair respects `lex_leq`.
pub open spec fn sorted_lex(s: Seq<Seq<u8>>) -> bool {
    forall|p: int, q: int| 0 <= p < q < s.len() ==> lex_leq(s[p], s[q])
}

/// Decides `candidate_name` on one file name.
pub fn is_candidate(name: &Vec<u8>) -> (r: bool)
    ensures
        r == candidate_name(name@),
{
    let n = name.len();
    if n < 5 {
        return false;
    }
    if name[n - 4] != 46 {
        return false;
    }
    let x = lower_byte(name[n - 3]);
    let y = lower_byte(name[n - 2]);
    let z = lower_byte(name[n - 1]);
    (x == 106 && y == 112 && z == 103) || (x == 112 && y == 110 && z == 103)
}

fn lower_byte(b: u8) -> (r: u8)
    ensures
        r == ascii_lower(b),
{
    if b >= 65 && b <= 90 {
        b + 32
    } else {
        b
    }
}

/// Decides `lex_leq` on two byte strings.
pub fn lex_leq_bytes(a: &Vec<u8>, b: &Vec<u8>) -> (r: bool)
    ensures
        r == lex_leq(a@, b@),
{
    let n: usize = if a.len() < b.len() {
        a.len()
    } else {
        b.len()
    };
    let mut i: usize = 0;
    while i < n
        invariant
            i <= n,
            n <= a@.len(),
            n <= b@.len(),
            n == a@.len() || n == b@.len(),
            lex_leq(a@, b@) == lex_leq(a@.skip(i as int), b@.skip(i as int)),
        decreases n - i,
    {
        if a[i] < b[i] {
            proof {
                assert(a@.skip(i as int)[0] == a@[i as int]);
                assert(b@.skip(i as int)[0] == b@[i as int]);
            }
            return true;
        }
        if a[i] > b[i] {
            proof {
                assert(a@.skip(i as int)[0] == a@[i as int]);
                assert(b@.skip(i as int)[0] == b@[i as int]);
            }
            return false;
        }
        proof {
            assert(a@.skip(i as int)[0] == a@[i as int]);
            assert(b@.skip(i as int)[0] == b@[i as int]);
            assert(a@.skip(i as int).drop_first() =~= a@.skip(i + 1));
            assert(b@.skip(i as int).drop_first() =~= b@.skip(i + 1));
        }
        i += 1;
    }
    proof {
        if a@.len() <= b@.len() {
            assert(a@.skip(i as int).len() == 0);
        } else {
            assert(b@.skip(i as int).len() == 0);
            assert(a@.skip(i as int).len() > 0);
        }
    }
    a.len() <= b.len()
}

/// Sorts a list of byte strings lexicographically, in place: the result is
/// sorted and holds exactly the same strings (as a multiset).
pub fn sort_names(v: &mut Vec<Vec<u8>>)
    ensures
        final(v)@.len() == old(v)@.len(),
        sorted_lex(byte_views(final(v)@)),
        byte_views(final(v)@).to_multiset() == byte_views(old(v)@).to_multiset(),
{
    broadcast use vstd::seq_lib::group_to_multiset_ensures;
    broadcast use vstd::multiset::group_multiset_axioms;

    let ghost ms0 = byte_views(old(v)@).to_multiset();
    if v.len() <= 1 {
        return;
    }
    let n = v.len();
    let mut i: usize = 1;
    while i < n
        invariant
            1 <= i <= n,
            n == v@.len(),
            byte_views(v@).to_multiset() == ms0,
            forall|p: int, q: int| 0 <= p < q < i ==> lex_leq(v@[p]@, v@[q]@),
        decreases n - i,
    {
        let mut j: usize = i;
        while j > 0 && !lex_leq_bytes(&v[j - 1], &v[j])
            invariant
                j <= i < n,
                n == v@.len(),
                byte_views(v@).to_multiset() == ms0,
                forall|p: int, q: int|
                    0 <= p < q <= i && p != j && q != j ==> lex_leq(v@[p]@, v@[q]@),
                forall|q: int| j < q <= i ==> lex_leq(v@[j as int]@, v@[q]@),
            decreases j,
        {
            let ghost before = byte_views(v@);
            let ghost vecs_before = v@;
            proof {
                lemma_lex_total(v@[j - 1]@, v@[j as int]@);
            }
            let moved = v.remove(j);
            v.insert(j - 1, moved);
            proof {
                let after = byte_views(v@);
                let x = before[j as int];
                assert(v@ =~= vecs_before.remove(j as int).insert(j - 1, vecs_before[j as int]));
                assert(after =~= before.remove(j as int).insert(j - 1, x));
                assert(after[j - 1] == x);
                assert(after[j as int] == before[j - 1]);
                assert(forall|k: int| 0 <= k < n && k != j - 1 && k != j ==> after[k] == before[k]);
                assert(before.contains(x));
                assert(after.to_multiset() == before.remove(j as int).insert(j - 1, x).to_multiset());
                assert(before.remove(j as int).to_multiset() == before.to_multiset().remove(x));
                assert(after.to_multiset() =~= before.to_multiset());
            }
            j -= 1;
        }
        proof {
            assert forall|p: int| 0 <= p < j implies lex_leq(v@[p]@, v@[j as int]@) by {
                if p < j - 1 {
                    lemma_lex_trans(v@[p]@, v@[j - 1]@, v@[j as int]@);
                }
            }
        }
        i += 1;
    }
}

/// Selects and orders the candidate frames of a directory listing: the file
/// names with an allowed still-image extension, in lexicographic byte order.
/// The result holds exactly the candidates of the input (as a multiset),
/// sorted; every name in it is a candidate.
pub fn select_frames(names: Vec<Vec<u8>>) -> (out: Vec<Vec<u8>>)
    ensures
        sorted_lex(byte_views(out@)),
        byte_views(out@).to_multiset() == byte_views(names@).filter(candidate_pred()).to_multiset(),
        forall|i: int| 0 <= i < out@.len() ==> candidate_name(out@[i]@),
{
    broadcast use vstd::seq_lib::group_to_multiset_ensures;

    let ghost all = byte_views(names@);
    let mut rest = names;
    let mut cand: Vec<Vec<u8>> = Vec::new();
    let ghost mut k: int = 0;
    while rest.len() > 0
        invariant
            0 <= k <= all.len(),
            byte_views(rest@) =~= all.skip(k),
            byte_views(cand@) =~= all.take(k).filter(candidate_pred()),
            forall|i: int| 0 <= i < cand@.len() ==> candidate_name(cand@[i]@),
        decreases rest@.len(),
    {
        let ghost rest_before = rest@;
        let name = rest.remove(0);
        let keep = is_candidate(&name);
        proof {
            reveal(Seq::filter);
            assert(byte_views(rest_before).len() == all.len() - k);
            assert(k < all.len());
            assert(name@ == byte_views(rest_before)[0]);
            assert(name@ == all[k]);
            assert(all.take(k + 1).drop_last() =~= all.take(k));
            assert(all.take(k + 1).last() == all[k]);
            assert(byte_views(rest@) =~= all.skip(k + 1));
        }
        let ghost cand_before = cand@;
        if keep {
            cand.push(name);
        }
        proof {
            reveal(Seq::filter);
            assert(candidate_name(all[k]) == keep);
            assert(candidate_pred()(all[k]) == candidate_name(all[k]));
            if keep {
                assert(candidate_pred()(all[k]));
                assert(all.take(k + 1).filter(candidate_pred()) == all.take(k).filter(candidate_pred()).push(all[k]));
                assert(cand@ == cand_before.push(rest_before[0]));
                assert(byte_views(cand@) =~= byte_views(cand_before).push(all[k]));
                assert(byte_views(cand@) =~= all.take(k + 1).filter(candidate_pred()));
            } else {
                assert(!candidate_pred()(all[k]));
                assert(all.take(k + 1).filter(candidate_pred()) == all.take(k).filter(candidate_pred()));
                assert(byte_views(cand@) =~= all.take(k + 1).filter(candidate_pred()));
            }
            k = k + 1;
        }
    }
    proof {
        assert(all.take(k) =~= all);
    }
    sort_names(&mut cand);
    proof {
        assert forall|i: int| 0 <= i < cand@.len() implies candidate_name(cand@[i]@) by {
            let views = byte_views(cand@);
            assert(views.contains(views[i]));
            assert(views.to_multiset().contains(views[i]));
            let filtered = all.filter(candidate_pred());
            assert(filtered.to_multiset().contains(views[i]));
            assert(filtered.contains(views[i]));
            let w = choose|w: int| 0 <= w < filtered.len() && filtered[w] == views[i];
            assert(candidate_pred()(filtered[w])) by {
                broadcast use vstd::seq_lib::group_filter_ensures;
            }
        }
    }
    cand
}

} // verus!
