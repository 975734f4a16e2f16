use vstd::prelude::*;
use vstd::relations::{sorted_by, total_ordering};
use vstd::seq_lib::{group_to_multiset_ensures, to_multiset_build, to_multiset_remove, to_multiset_len};
use vstd::multiset::{group_multiset_axioms, Multiset};
use crate::option_list::names_of;

verus! {

/// Lexicographic order on names, comparing characters by their code points.
pub open spec fn name_le(a: Seq<char>, b: Seq<char>) -> bool
    decreases a.len(),
{
    if a.len() == 0 {
        true
    } else if b.len() == 0 {
        false
    } else if a[0] != b[0] {
        (a[0] as int) < (b[0] as int)
    } else {
        name_le(a.drop_first(), b.drop_first())
    }
}

pub open spec fn name_order() -> spec_fn(Seq<char>, Seq<char>) -> bool {
    |a: Seq<char>, b: Seq<char>| name_le(a, b)
}

/// `names` in ascending order.
pub open spec fn sorted_names(names: Seq<Seq<char>>) -> Seq<Seq<char>> {
    names.sort_by(name_order())
}

/// Sorting keeps the number of names.
pub proof fn lemma_sorted_names_len(names: Seq<Seq<char>>)
    ensures
        sorted_names(names).len() == names.len(),
{
    lemma_name_order_total();
    names.lemma_sort_by_ensures(name_order());
    to_multiset_len(names);
    to_multiset_len(sorted_names(names));
}

proof fn lemma_name_le_reflexive(a: Seq<char>)
    ensures
        name_le(a, a),
    decreases a.len(),
{
    if a.len() > 0 {
        lemma_name_le_reflexive(a.drop_first());
    }
}

proof fn lemma_name_le_antisymmetric(a: Seq<char>, b: Seq<char>)
    requires
        name_le(a, b),
        name_le(b, a),
    ensures
        a == b,
    decreases a.len(),
{
    if a.len() == 0 {
        assert(a =~= b);
    } else if a[0] == b[0] {
        assert(b.len() > 0);
        lemma_name_le_antisymmetric(a.drop_first(), b.drop_first());
        assert(a.drop_first().len() == b.drop_first().len());
        assert(a.len() == b.len());
        assert(a =~= b) by {
            assert forall|i: int| 0 <= i < a.len() implies a[i] == b[i] by {
                if i > 0 {
                    assert(a[i] == a.drop_first()[i - 1]);
                    assert(b[i] == b.drop_first()[i - 1]);
                }
            }
        }
    }
}

proof fn lemma_name_le_transitive(a: Seq<char>, b: Seq<char>, c: Seq<char>)
    requires
        name_le(a, b),
        name_le(b, c),
    ensures
        name_le(a, c),
    decreases a.len(),
{
    if a.len() > 0 && b.len() > 0 && c.len() > 0 && a[0] == b[0] && b[0] == c[0] {
        lemma_name_le_transitive(a.drop_first(), b.drop_first(), c.drop_first());
    }
}

proof fn lemma_name_le_total(a: Seq<char>, b: Seq<char>)
    ensures
        name_le(a, b) || name_le(b, a),
    decreases a.len(),
{
    if a.len() > 0 && b.len() > 0 {
        if a[0] == b[0] {
            lemma_name_le_total(a.drop_first(), b.drop_first());
        } else {
            assert((a[0] as int) != (b[0] as int));
        }
    }
}

/// The order on names is a total order.
pub proof fn lemma_name_order_total()
    ensures
        total_ordering(name_order()),
{
    let r = name_order();
    assert forall|x: Seq<char>| #[trigger] r(x, x) by {
        lemma_name_le_reflexive(x);
    }
    assert forall|x: Seq<char>, y: Seq<char>| #[trigger] r(x, y) && #[trigger] r(y, x) implies x
        == y by {
        lemma_name_le_antisymmetric(x, y);
    }
    assert forall|x: Seq<char>, y: Seq<char>, z: Seq<char>| #[trigger] r(x, y) && #[trigger] r(
        y,
        z,
    ) implies r(x, z) by {
        lemma_name_le_transitive(x, y, z);
    }
    assert forall|x: Seq<char>, y: Seq<char>| #[trigger] r(x, y) || #[trigger] r(y, x) by {
        lemma_name_le_total(x, y);
    }
}

/// Two sequences sorted by a total order with the same elements are the same sequence.
proof fn lemma_sorted_unique(a: Seq<Seq<char>>, b: Seq<Seq<char>>)
    requires
        total_ordering(name_order()),
        sorted_by(a, name_order()),
        sorted_by(b, name_order()),
        a.to_multiset() == b.to_multiset(),
    ensures
        a == b,
    decreases a.len(),
{
    broadcast use group_to_multiset_ensures;

    to_multiset_len(a);
    to_multiset_len(b);
    if a.len() == 0 {
        assert(a =~= b);
    } else {
        let r = name_order();
        assert(b.to_multiset().count(a[0]) > 0);
        assert(b.contains(a[0]));
        let j = choose|j: int| 0 <= j < b.len() && b[j] == a[0];
        assert(r(b[0], a[0])) by {
            if j > 0 {
                assert(r(b[0], b[j]));
            }
        }
        assert(b.contains(b[0])) by {
            assert(b[0] == b[0]);
        }
        assert(a.to_multiset().count(b[0]) > 0);
        assert(a.contains(b[0]));
        let k = choose|k: int| 0 <= k < a.len() && a[k] == b[0];
        assert(r(a[0], b[0])) by {
            if k > 0 {
                assert(r(a[0], a[k]));
            }
        }
        assert(a[0] == b[0]);
        to_multiset_remove(a, 0);
        to_multiset_remove(b, 0);
        assert(a.remove(0) =~= a.drop_first());
        assert(b.remove(0) =~= b.drop_first());
        assert(sorted_by(a.drop_first(), r)) by {
            assert forall|i: int, l: int| 0 <= i < l < a.drop_first().len() implies #[trigger] r(
                a.drop_first()[i],
                a.drop_first()[l],
            ) by {
                assert(r(a[i + 1], a[l + 1]));
            }
        }
        assert(sorted_by(b.drop_first(), r)) by {
            assert forall|i: int, l: int| 0 <= i < l < b.drop_first().len() implies #[trigger] r(
                b.drop_first()[i],
                b.drop_first()[l],
            ) by {
                assert(r(b[i + 1], b[l + 1]));
            }
        }
        lemma_sorted_unique(a.drop_first(), b.drop_first());
        assert forall|i: int| 0 <= i < a.len() implies a[i] == b[i] by {
            if i > 0 {
                assert(a[i] == a.drop_first()[i - 1]);
                assert(b[i] == b.drop_first()[i - 1]);
            }
        }
        assert(a =~= b);
    }
}

/// Whether `a` comes no later than `b` in name order.
pub fn name_le_exec(a: &str, b: &str) -> (r: bool)
    ensures
        r == name_le(a@, b@),
{
    let la = a.unicode_len();
    let lb = b.unicode_len();
    let mut i: usize = 0;
    assert(a@.skip(0) =~= a@);
    assert(b@.skip(0) =~= b@);
    while i < la && i < lb
        invariant
            i <= la,
            i <= lb,
            la == a@.len(),
            lb == b@.len(),
            name_le(a@, b@) == name_le(a@.skip(i as int), b@.skip(i as int)),
        decreases la - i,
    {
        let ca = a.get_char(i);
        let cb = b.get_char(i);
        assert(a@.skip(i as int)[0] == ca);
        assert(b@.skip(i as int)[0] == cb);
        if ca != cb {
            return (ca as u32) < (cb as u32);
        }
        assert(a@.skip(i as int).drop_first() =~= a@.skip(i + 1));
        assert(b@.skip(i as int).drop_first() =~= b@.skip(i + 1));
        i += 1;
    }
    i == la
}

/// The position of a least name in a non-empty vector.
fn index_of_least(v: &Vec<String>) -> (m: usize)
    requires
        v.len() > 0,
    ensures
        m < v.len(),
        forall|j: int| 0 <= j < v.len() ==> name_le(v@[m as int]@, #[trigger] v@[j]@),
{
    let mut m: usize = 0;
    let mut i: usize = 1;
    proof {
        lemma_name_le_reflexive(v@[0]@);
    }
    while i < v.len()
        invariant
            m < i <= v.len(),
            forall|j: int| 0 <= j < i ==> name_le(v@[m as int]@, #[trigger] v@[j]@),
        decreases v.len() - i,
    {
        if !name_le_exec(v[m].as_str(), v[i].as_str()) {
            proof {
                lemma_name_le_total(v@[m as int]@, v@[i as int]@);
                assert forall|j: int| 0 <= j <= i implies name_le(
                    v@[i as int]@,
                    #[trigger] v@[j]@,
                ) by {
                    if j < i {
                        lemma_name_le_transitive(v@[i as int]@, v@[m as int]@, v@[j]@);
                    } else {
                        lemma_name_le_reflexive(v@[i as int]@);
                    }
                }
            }
            m = i;
        }
        i += 1;
    }
    m
}

/// The names in ascending order.
pub fn sort_names(items: Vec<String>) -> (r: Vec<String>)
    ensures
        names_of(r@) == sorted_names(names_of(items@)),
{
    broadcast use group_multiset_axioms;

    let ghost all = names_of(items@);
    let mut rest = items;
    let mut out: Vec<String> = Vec::new();
    proof {
        assert(names_of(out@) =~= Seq::<Seq<char>>::empty());
        assert(names_of(out@).to_multiset() =~= Multiset::empty()) by {
            broadcast use group_to_multiset_ensures;
        }
        assert(names_of(out@).to_multiset().add(names_of(rest@).to_multiset()) =~= all.to_multiset());
    }
    while rest.len() > 0
        invariant
            names_of(out@).to_multiset().add(names_of(rest@).to_multiset()) == all.to_multiset(),
            sorted_by(names_of(out@), name_order()),
            forall|i: int, j: int|
                0 <= i < out@.len() && 0 <= j < rest@.len() ==> name_le(
                    #[trigger] out@[i]@,
                    #[trigger] rest@[j]@,
                ),
        decreases rest@.len(),
    {
        let m = index_of_least(&rest);
        let ghost o = names_of(out@);
        let ghost rs = names_of(rest@);
        let ghost old_out = out@;
        let ghost old_rest = rest@;
        let x = rest.remove(m);
        out.push(x);
        proof {
            let xv = rs[m as int];
            assert(names_of(rest@) =~= rs.remove(m as int));
            assert(names_of(out@) =~= o.push(xv));
            to_multiset_remove(rs, m as int);
            to_multiset_build(o, xv);
            assert(rs.to_multiset().count(xv) > 0) by {
                broadcast use group_to_multiset_ensures;

                assert(rs.contains(xv));
            }
            assert(names_of(out@).to_multiset().add(names_of(rest@).to_multiset()) =~= all.to_multiset());
            assert forall|i: int, j: int| 0 <= i < names_of(out@).len() && 0 <= j < names_of(
                out@,
            ).len() && i < j implies #[trigger] name_order()(
                names_of(out@)[i],
                names_of(out@)[j],
            ) by {
                if j < o.len() {
                    assert(name_order()(o[i], o[j]));
                } else {
                    assert(name_le(old_out[i]@, old_rest[m as int]@));
                }
            }
            assert forall|i: int, j: int| 0 <= i < out@.len() && 0 <= j < rest@.len() implies name_le(
                #[trigger] out@[i]@,
                #[trigger] rest@[j]@,
            ) by {
                let k = if j < m { j } else { j + 1 };
                assert(rest@[j] == old_rest[k]);
                if i < old_out.len() {
                    assert(name_le(old_out[i]@, old_rest[k]@));
                } else {
                    assert(name_le(old_rest[m as int]@, old_rest[k]@));
                }
            }
        }
    }
    proof {
        assert(names_of(rest@) =~= Seq::<Seq<char>>::empty());
        assert(names_of(rest@).to_multiset() =~= Multiset::empty()) by {
            broadcast use group_to_multiset_ensures;
        }
        assert(names_of(out@).to_multiset() =~= all.to_multiset());
        lemma_name_order_total();
        all.lemma_sort_by_ensures(name_order());
        lemma_sorted_unique(names_of(out@), sorted_names(all));
    }
    out
}

/// The position of the first name equal to `target`, if there is one.
pub fn index_of_name(names: &Vec<String>, target: &str) -> (r: Option<usize>)
    ensures
        r matches Some(i) ==> i < names.len() && names@[i as int]@ == target@ && forall|j: int|
            0 <= j < i ==> #[trigger] names@[j]@ != target@,
        r is None ==> forall|j: int| 0 <= j < names.len() ==> #[trigger] names@[j]@ != target@,
{
    let mut i: usize = 0;
    while i < names.len()
        invariant
            i <= names.len(),
            forall|j: int| 0 <= j < i ==> #[trigger] names@[j]@ != target@,
        decreases names.len() - i,
    {
        if same_name(names[i].as_str(), target) {
            return Some(i);
        }
        i += 1;
    }
    None
}

/// Whether two names are the same text.
pub fn same_name(a: &str, b: &str) -> (r: bool)
    ensures
        r == (a@ == b@),
{
    let la = a.unicode_len();
    let lb = b.unicode_len();
    if la != lb {
        return false;
    }
    let mut i: usize = 0;
    while i < la
        invariant
            i <= la,
            la == a@.len(),
            lb == b@.len(),
            la == lb,
            forall|j: int| 0 <= j < i ==> a@[j] == b@[j],
        decreases la - i,
    {
        if a.get_char(i) != b.get_char(i) {
            return false;
        }
        i += 1;
    }
    assert(a@ =~= b@);
    true
}

} // verus!
