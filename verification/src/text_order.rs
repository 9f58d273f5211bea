//! The order of texts by Unicode scalar values, as `String`'s `Ord` orders
//! them, and a verified sort of a list of texts.
use vstd::prelude::*;
use vstd::multiset::Multiset;
use vstd::relations::sorted_by;

verus! {

broadcast use vstd::seq_lib::group_to_multiset_ensures, vstd::multiset::group_multiset_axioms;

/// `a` comes no later than `b` in lexicographic order of their scalar values.
pub open spec fn text_le(a: Seq<char>, b: Seq<char>) -> bool
    decreases a.len(),
{
    if a.len() == 0 {
        true
    } else if b.len() == 0 {
        false
    } else if a[0] != b[0] {
        (a[0] as int) < (b[0] as int)
    } else {
        text_le(a.drop_first(), b.drop_first())
    }
}

/// The text order as a relation.
pub open spec fn text_order() -> spec_fn(Seq<char>, Seq<char>) -> bool {
    |a: Seq<char>, b: Seq<char>| text_le(a, b)
}

/// The views of a sequence of strings.
pub open spec fn string_views(s: Seq<String>) -> Seq<Seq<char>> {
    s.map_values(|x: String| x@)
}

/// Any two texts are ordered one way or the other.
pub proof fn lemma_text_le_total(a: Seq<char>, b: Seq<char>)
    ensures
        text_le(a, b) || text_le(b, a),
    decreases a.len(),
{
    if a.len() > 0 && b.len() > 0 {
        if a[0] == b[0] {
            lemma_text_le_total(a.drop_first(), b.drop_first());
        } else {
            assert((a[0] as int) != (b[0] as int));
        }
    }
}

/// Every text comes no later than itself.
pub proof fn lemma_text_le_reflexive(a: Seq<char>)
    ensures
        text_le(a, a),
    decreases a.len(),
{
    if a.len() > 0 {
        lemma_text_le_reflexive(a.drop_first());
    }
}

/// The text order is transitive.
pub proof fn lemma_text_le_transitive(a: Seq<char>, b: Seq<char>, c: Seq<char>)
    requires
        text_le(a, b),
        text_le(b, c),
    ensures
        text_le(a, c),
    decreases a.len(),
{
    if a.len() > 0 && b.len() > 0 && c.len() > 0 && a[0] == b[0] && b[0] == c[0] {
        lemma_text_le_transitive(a.drop_first(), b.drop_first(), c.drop_first());
    }
}

/// Two texts each no later than the other are the same text.
#[verifier::spinoff_prover]
pub proof fn lemma_text_le_antisymmetric(a: Seq<char>, b: Seq<char>)
    requires
        text_le(a, b),
        text_le(b, a),
    ensures
        a == b,
    decreases a.len(),
{
    if a.len() == 0 {
        // `b` no later than the empty text must be empty too.
        assert(b.len() == 0);
        assert(a =~= b);
    } else {
        // A non-empty text is never before the empty one.
        assert(b.len() > 0);
        if a[0] != b[0] {
            // Each first character would be below the other.
            assert((a[0] as int) < (b[0] as int));
            assert((b[0] as int) < (a[0] as int));
            assert(false);
        }
        // Equal first characters: the order is decided by the rests.
        assert(text_le(a.drop_first(), b.drop_first()));
        assert(text_le(b.drop_first(), a.drop_first()));
        lemma_text_le_antisymmetric(a.drop_first(), b.drop_first());
        assert(a.len() == b.len());
        assert forall|k: int| 0 <= k < a.len() implies a[k] == b[k] by {
            if k > 0 {
                assert(a[k] == a.drop_first()[k - 1]);
                assert(b[k] == b.drop_first()[k - 1]);
            }
        }
        assert(a =~= b);
    }
}

/// `a` and `b` agree before position `k`, and there `a` holds the smaller
/// scalar value.
pub open spec fn first_difference_below(a: Seq<char>, b: Seq<char>, k: int) -> bool {
    &&& 0 <= k < a.len()
    &&& k < b.len()
    &&& a.take(k) == b.take(k)
    &&& (a[k] as int) < (b[k] as int)
}

/// The text order is the lexicographic order of scalar values: `a` comes
/// no later than `b` exactly when `a` is a prefix of `b`, or where the two
/// first differ `a` holds the smaller scalar value.
pub proof fn lemma_text_le_lexicographic(a: Seq<char>, b: Seq<char>)
    ensures
        text_le(a, b) <==> ((a.len() <= b.len() && b.take(a.len() as int) == a) || exists|k: int|
            #[trigger] first_difference_below(a, b, k)),
    decreases a.len(),
{
    if a.len() == 0 {
        assert(b.take(0) =~= a);
    } else if b.len() == 0 {
        assert forall|k: int| !#[trigger] first_difference_below(a, b, k) by {}
    } else if a[0] != b[0] {
        if a.len() <= b.len() && b.take(a.len() as int) == a {
            assert(b.take(a.len() as int)[0] == b[0]);
        }
        assert forall|k: int| #[trigger] first_difference_below(a, b, k) implies k == 0 by {
            if k > 0 {
                assert(a.take(k)[0] == a[0]);
                assert(b.take(k)[0] == b[0]);
            }
        }
        if (a[0] as int) < (b[0] as int) {
            assert(a.take(0) =~= b.take(0));
            assert(first_difference_below(a, b, 0));
        }
    } else {
        let a1 = a.drop_first();
        let b1 = b.drop_first();
        lemma_text_le_lexicographic(a1, b1);
        if a.len() <= b.len() && b.take(a.len() as int) == a {
            assert forall|i: int| 0 <= i < a1.len() implies b1.take(a1.len() as int)[i] == a1[i] by {
                assert(b.take(a.len() as int)[i + 1] == a[i + 1]);
            }
            assert(b1.take(a1.len() as int) =~= a1);
        }
        if a1.len() <= b1.len() && b1.take(a1.len() as int) == a1 {
            assert forall|i: int| 0 <= i < a.len() implies b.take(a.len() as int)[i] == a[i] by {
                if i > 0 {
                    assert(b1.take(a1.len() as int)[i - 1] == a1[i - 1]);
                }
            }
            assert(b.take(a.len() as int) =~= a);
        }
        if exists|k: int| #[trigger] first_difference_below(a, b, k) {
            let k = choose|k: int| #[trigger] first_difference_below(a, b, k);
            assert(k != 0);
            assert(a1.take(k - 1) =~= a.take(k).drop_first());
            assert(b1.take(k - 1) =~= b.take(k).drop_first());
            assert(first_difference_below(a1, b1, k - 1));
        }
        if exists|k: int| #[trigger] first_difference_below(a1, b1, k) {
            let k = choose|k: int| #[trigger] first_difference_below(a1, b1, k);
            let ak = a.take(k + 1);
            let bk = b.take(k + 1);
            assert forall|i: int| 0 <= i < k + 1 implies #[trigger] ak[i] == bk[i] by {
                if i > 0 {
                    assert(a1.take(k)[i - 1] == b1.take(k)[i - 1]);
                }
            }
            assert(ak =~= bk);
            assert(first_difference_below(a, b, k + 1));
        }
    }
}

/// Comparing the texts after a common prefix of length `i` decides their
/// order.
proof fn lemma_text_le_after_prefix(a: Seq<char>, b: Seq<char>, i: int)
    requires
        0 <= i <= a.len(),
        i <= b.len(),
        a.take(i) == b.take(i),
    ensures
        text_le(a, b) == text_le(a.skip(i), b.skip(i)),
    decreases i,
{
    if i > 0 {
        assert(a[0] == a.take(i)[0]);
        assert(b[0] == b.take(i)[0]);
        assert(a.drop_first().take(i - 1) =~= a.take(i).drop_first());
        assert(b.drop_first().take(i - 1) =~= b.take(i).drop_first());
        lemma_text_le_after_prefix(a.drop_first(), b.drop_first(), i - 1);
        assert(a.drop_first().skip(i - 1) =~= a.skip(i));
        assert(b.drop_first().skip(i - 1) =~= b.skip(i));
    } else {
        assert(a.skip(0) =~= a);
        assert(b.skip(0) =~= b);
    }
}

/// Whether `a` comes no later than `b` in the text order.
pub fn text_le_exec(a: &str, b: &str) -> (r: bool)
    ensures
        r == text_le(a@, b@),
{
    let la = a.unicode_len();
    let lb = b.unicode_len();
    let mut i: usize = 0;
    proof {
        assert(a@.take(0) =~= b@.take(0));
        lemma_text_le_after_prefix(a@, b@, 0);
    }
    while i < la && i < lb
        invariant
            la == a@.len(),
            lb == b@.len(),
            i <= la,
            i <= lb,
            a@.take(i as int) == b@.take(i as int),
            text_le(a@, b@) == text_le(a@.skip(i as int), b@.skip(i as int)),
        decreases la - i,
    {
        let ca = a.get_char(i);
        let cb = b.get_char(i);
        assert(a@.skip(i as int)[0] == ca);
        assert(b@.skip(i as int)[0] == cb);
        if ca != cb {
            return (ca as u32) < (cb as u32);
        }
        assert(a@.skip(i as int).drop_first() =~= a@.skip(i + 1));
        assert(b@.skip(i as int).drop_first() =~= b@.skip(i + 1));
        assert(a@.take(i + 1) =~= a@.take(i as int).push(ca));
        assert(b@.take(i + 1) =~= b@.take(i as int).push(cb));
        i = i + 1;
    }
    i == la
}

/// Inserting into a sequence adds the element to its multiset.
proof fn lemma_insert_to_multiset<A>(s: Seq<A>, p: int, y: A)
    requires
        0 <= p <= s.len(),
    ensures
        s.insert(p, y).to_multiset() =~= s.to_multiset().insert(y),
{
    let l = s.subrange(0, p);
    let r = s.subrange(p, s.len() as int);
    assert(s =~= l + r);
    assert(s.insert(p, y) =~= l + (seq![y] + r));
    vstd::seq_lib::lemma_multiset_commutative(l, r);
    vstd::seq_lib::lemma_multiset_commutative(l, seq![y] + r);
    vstd::seq_lib::lemma_multiset_commutative(seq![y], r);
    assert(seq![y] =~= Seq::<A>::empty().push(y));
    assert(Seq::<A>::empty().to_multiset() =~= Multiset::empty());
}

/// Sorts texts into the text order; the result holds the same texts.
pub fn sort_texts(items: Vec<String>) -> (sorted: Vec<String>)
    ensures
        sorted_by(string_views(sorted@), text_order()),
        string_views(sorted@).to_multiset() == string_views(items@).to_multiset(),
{
    let ghost original = string_views(items@);
    let mut rest = items;
    let mut out: Vec<String> = Vec::new();
    assert(string_views(out@) =~= Seq::<Seq<char>>::empty());
    assert(Seq::<Seq<char>>::empty().to_multiset() =~= Multiset::empty());
    while rest.len() > 0
        invariant
            sorted_by(string_views(out@), text_order()),
            string_views(out@).to_multiset().add(string_views(rest@).to_multiset()) == original.to_multiset(),
        decreases rest.len(),
    {
        let ghost before_rest = rest@;
        let x = rest.pop().unwrap();
        assert(before_rest =~= rest@.push(x));
        assert(string_views(before_rest) =~= string_views(rest@).push(x@));
        let n = out.len();
        let mut p: usize = 0;
        while p < n && text_le_exec(out[p].as_str(), x.as_str())
            invariant
                n == out@.len(),
                p <= n,
                forall|k: int| 0 <= k < p ==> text_le(#[trigger] out@[k]@, x@),
            decreases n - p,
        {
            p = p + 1;
        }
        let ghost views = string_views(out@);
        proof {
            if p < n {
                lemma_text_le_total(views[p as int], x@);
            }
            assert forall|i: int, j: int| 0 <= i < j < views.len() + 1 implies text_le(
                #[trigger] views.insert(p as int, x@)[i],
                #[trigger] views.insert(p as int, x@)[j],
            ) by {
                let ins = views.insert(p as int, x@);
                if j < p {
                    assert(text_order()(views[i], views[j]));
                } else if j == p {
                    assert(ins[i] == views[i]);
                    assert(text_le(out@[i]@, x@));
                } else if i < p {
                    assert(ins[i] == views[i]);
                    assert(ins[j] == views[j - 1]);
                    assert(text_le(out@[i]@, x@));
                    lemma_text_le_total(views[p as int], x@);
                    if p < j - 1 {
                        assert(text_order()(views[p as int], views[j - 1]));
                    } else {
                        lemma_text_le_reflexive(views[p as int]);
                    }
                    lemma_text_le_transitive(x@, views[p as int], views[j - 1]);
                    lemma_text_le_transitive(views[i], x@, views[j - 1]);
                } else if i == p {
                    assert(ins[j] == views[j - 1]);
                    if p < j - 1 {
                        assert(text_order()(views[p as int], views[j - 1]));
                    } else {
                        lemma_text_le_reflexive(views[p as int]);
                    }
                    lemma_text_le_transitive(x@, views[p as int], views[j - 1]);
                } else {
                    assert(text_order()(views[i - 1], views[j - 1]));
                }
            }
            lemma_insert_to_multiset(views, p as int, x@);
        }
        out.insert(p, x);
        assert(string_views(out@) =~= views.insert(p as int, x@));
    }
    assert(string_views(rest@) =~= Seq::<Seq<char>>::empty());
    assert(Seq::<Seq<char>>::empty().to_multiset() =~= Multiset::empty());
    out
}

/// Two lists of texts in text order that hold the same texts are the same
/// list: the order leaves no choice, so a sorted result is determined by
/// the texts alone.
pub proof fn lemma_sorted_texts_unique(a: Seq<Seq<char>>, b: Seq<Seq<char>>)
    requires
        sorted_by(a, text_order()),
        sorted_by(b, text_order()),
        a.to_multiset() == b.to_multiset(),
    ensures
        a == b,
    decreases a.len(),
{
    assert(a.len() == a.to_multiset().len());
    assert(b.len() == b.to_multiset().len());
    if a.len() == 0 {
        assert(a =~= b);
    } else {
        assert(a.to_multiset().count(a[0]) > 0);
        assert(b.contains(a[0]));
        let kb = choose|k: int| 0 <= k < b.len() && b[k] == a[0];
        assert(a.contains(b[0])) by {
            assert(b.to_multiset().count(b[0]) > 0);
        }
        let ka = choose|k: int| 0 <= k < a.len() && a[k] == b[0];
        if kb > 0 {
            assert(text_order()(b[0], b[kb]));
        } else {
            lemma_text_le_reflexive(b[0]);
        }
        if ka > 0 {
            assert(text_order()(a[0], a[ka]));
        } else {
            lemma_text_le_reflexive(a[0]);
        }
        lemma_text_le_antisymmetric(a[0], b[0]);
        let ta = a.drop_first();
        let tb = b.drop_first();
        assert(a.remove(0) =~= ta);
        assert(b.remove(0) =~= tb);
        assert(sorted_by(ta, text_order())) by {
            assert forall|i: int, j: int| 0 <= i < j < ta.len() implies #[trigger] text_order()(
                ta[i],
                ta[j],
            ) by {
                assert(text_order()(a[i + 1], a[j + 1]));
            }
        }
        assert(sorted_by(tb, text_order())) by {
            assert forall|i: int, j: int| 0 <= i < j < tb.len() implies #[trigger] text_order()(
                tb[i],
                tb[j],
            ) by {
                assert(text_order()(b[i + 1], b[j + 1]));
            }
        }
        lemma_sorted_texts_unique(ta, tb);
        assert(a =~= seq![a[0]] + ta);
        assert(b =~= seq![b[0]] + tb);
    }
}

} // verus!
