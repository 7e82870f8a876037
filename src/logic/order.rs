use vstd::prelude::*;
use vstd::seq_lib::to_multiset_insert;
use vstd::string::*;

use crate::logic::apps::AppEntry;

verus! {

/// `i` is where `a` and `b` first part: the end of one of them, or the
/// first position that holds different characters.
pub open spec fn first_difference(a: Seq<char>, b: Seq<char>, i: int) -> bool {
    &&& 0 <= i <= a.len()
    &&& i <= b.len()
    &&& forall|k: int| 0 <= k < i ==> a[k] == b[k]
    &&& (i == a.len() || i == b.len() || a[i] != b[i])
}

/// Lexicographic order of names by character code: `a` comes before `b`
/// when it is a proper prefix of `b` or has the smaller character where
/// they first differ.
pub open spec fn name_before(a: Seq<char>, b: Seq<char>) -> bool {
    exists|i: int|
        #![trigger first_difference(a, b, i)]
        first_difference(a, b, i) && ((i == a.len() && i < b.len()) || (i < a.len() && i < b.len()
            && (a[i] as int) < (b[i] as int)))
}

/// The entries of `s` with the name `name`, in order.
pub open spec fn with_name(s: Seq<AppEntry>, name: Seq<char>) -> Seq<AppEntry> {
    s.filter(named(name))
}

/// An entry has the name `name`.
pub open spec fn named(name: Seq<char>) -> spec_fn(AppEntry) -> bool {
    |e: AppEntry| e.name@ == name
}

/// No entry of `s` comes after a later one by name.
pub open spec fn sorted_by_name(s: Seq<AppEntry>) -> bool {
    forall|i: int, j: int|
        0 <= i < j < s.len() ==> !name_before(#[trigger] s[j].name@, #[trigger] s[i].name@)
}

proof fn lemma_first_difference_unique(a: Seq<char>, b: Seq<char>, i: int, j: int)
    requires
        first_difference(a, b, i),
        first_difference(a, b, j),
    ensures
        i == j,
{
    if i < j {
        assert(a[i] == b[i]);
    } else if j < i {
        assert(a[j] == b[j]);
    }
}

proof fn lemma_first_difference_exists(a: Seq<char>, b: Seq<char>, n: int) -> (i: int)
    requires
        0 <= n <= a.len(),
        n <= b.len(),
        forall|k: int| 0 <= k < n ==> a[k] == b[k],
    ensures
        first_difference(a, b, i),
    decreases a.len() - n,
{
    if n == a.len() || n == b.len() || a[n] != b[n] {
        n
    } else {
        lemma_first_difference_exists(a, b, n + 1)
    }
}

/// Where two names first part decides their order.
proof fn lemma_before_at(a: Seq<char>, b: Seq<char>, i: int)
    requires
        first_difference(a, b, i),
    ensures
        name_before(a, b) == ((i == a.len() && i < b.len()) || (i < a.len() && i < b.len() && (
        a[i] as int) < (b[i] as int))),
{
    if name_before(a, b) {
        let j = choose|j: int|
            #![trigger first_difference(a, b, j)]
            first_difference(a, b, j) && ((j == a.len() && j < b.len()) || (j < a.len() && j
                < b.len() && (a[j] as int) < (b[j] as int)));
        lemma_first_difference_unique(a, b, i, j);
    }
}

/// No name comes before itself.
pub proof fn lemma_before_irreflexive(a: Seq<char>)
    ensures
        !name_before(a, a),
{
    lemma_before_at(a, a, a.len() as int);
}

/// The order of names is transitive.
pub proof fn lemma_before_transitive(a: Seq<char>, b: Seq<char>, c: Seq<char>)
    requires
        name_before(a, b),
        name_before(b, c),
    ensures
        name_before(a, c),
{
    let i = lemma_first_difference_exists(a, b, 0);
    let j = lemma_first_difference_exists(b, c, 0);
    let m = lemma_first_difference_exists(a, c, 0);
    lemma_before_at(a, b, i);
    lemma_before_at(b, c, j);
    lemma_before_at(a, c, m);
    if i < j {
        assert(first_difference(a, c, i));
        lemma_first_difference_unique(a, c, i, m);
    } else if j < i {
        assert(first_difference(a, c, j));
        lemma_first_difference_unique(a, c, j, m);
    } else {
        assert(first_difference(a, c, i));
        lemma_first_difference_unique(a, c, i, m);
    }
}

/// Of two different names, one comes before the other.
pub proof fn lemma_before_total(a: Seq<char>, b: Seq<char>)
    requires
        a != b,
    ensures
        name_before(a, b) || name_before(b, a),
{
    let i = lemma_first_difference_exists(a, b, 0);
    assert(first_difference(b, a, i));
    lemma_before_at(a, b, i);
    lemma_before_at(b, a, i);
    if i == a.len() && i == b.len() {
        assert(a =~= b);
    } else if i < a.len() && i < b.len() {
        assert((a[i] as int) != (b[i] as int));
    }
}

/// Whether name `a` comes before name `b`.
pub fn is_name_before(a: &str, b: &str) -> (r: bool)
    ensures
        r == name_before(a@, b@),
{
    let la = a.unicode_len();
    let lb = b.unicode_len();
    let mut i: usize = 0;
    loop
        invariant
            la == a@.len(),
            lb == b@.len(),
            i <= la,
            i <= lb,
            forall|k: int| 0 <= k < i ==> a@[k] == b@[k],
        ensures
            i == la || i == lb || a@[i as int] != b@[i as int],
        decreases la - i,
    {
        if i == la || i == lb {
            break;
        }
        if a.get_char(i) != b.get_char(i) {
            break;
        }
        i += 1;
    }
    proof {
        lemma_before_at(a@, b@, i as int);
    }
    if i == la {
        i < lb
    } else if i == lb {
        false
    } else {
        (a.get_char(i) as u32) < (b.get_char(i) as u32)
    }
}

/// Inserting `x` where every later entry has another name keeps the
/// entries of each other name, and adds `x` last among those of its name.
proof fn lemma_insert_with_name(s: Seq<AppEntry>, pos: int, x: AppEntry, name: Seq<char>)
    requires
        0 <= pos <= s.len(),
        forall|k: int| pos <= k < s.len() ==> s[k].name@ != x.name@,
    ensures
        with_name(s.insert(pos, x), name) == (if x.name@ == name {
            with_name(s, name).push(x)
        } else {
            with_name(s, name)
        }),
{
    let pred = named(name);
    let front = s.subrange(0, pos);
    let back = s.subrange(pos, s.len() as int);
    assert(s =~= front + back);
    assert(s.insert(pos, x) =~= front + seq![x] + back);
    Seq::filter_distributes_over_add(front, back, pred);
    Seq::filter_distributes_over_add(front + seq![x], back, pred);
    Seq::filter_distributes_over_add(front, seq![x], pred);
    seq![x].lemma_filter_push(x, pred);
    assert(seq![x] =~= Seq::<AppEntry>::empty().push(x));
    Seq::<AppEntry>::empty().lemma_filter_push(x, pred);
    if x.name@ == name {
        assert(back.all(|e: AppEntry| !pred(e)));
        back.lemma_all_neg_filter_empty(pred);
        assert(back.filter(pred) =~= Seq::<AppEntry>::empty());
        assert(with_name(s, name) =~= front.filter(pred));
        assert(with_name(s.insert(pos, x), name) =~= front.filter(pred).push(x));
    } else {
        assert(with_name(s.insert(pos, x), name) =~= front.filter(pred) + back.filter(pred));
    }
}

/// The entries ordered by name; entries of equal names keep their order.
pub fn sort_by_name(apps: Vec<AppEntry>) -> (r: Vec<AppEntry>)
    ensures
        sorted_by_name(r@),
        forall|name: Seq<char>| #[trigger] with_name(r@, name) == with_name(apps@, name),
        r@.to_multiset() == apps@.to_multiset(),
{
    let ghost orig = apps@;
    let mut rest = apps;
    let mut sorted: Vec<AppEntry> = Vec::new();
    assert(orig.subrange(0, 0) =~= sorted@);
    assert(rest@ =~= orig.subrange(0, orig.len() as int));
    while rest.len() > 0
        invariant
            orig.len() == sorted@.len() + rest@.len(),
            rest@ == orig.subrange(sorted@.len() as int, orig.len() as int),
            sorted_by_name(sorted@),
            forall|name: Seq<char>|
                #[trigger] with_name(sorted@, name) == with_name(
                    orig.subrange(0, sorted@.len() as int),
                    name,
                ),
            sorted@.to_multiset() == orig.subrange(0, sorted@.len() as int).to_multiset(),
        decreases rest@.len(),
    {
        let ghost n = sorted@.len() as int;
        let x = rest.remove(0);
        assert(x == orig[n]);
        let mut pos: usize = sorted.len();
        loop
            invariant
                pos <= sorted@.len(),
                forall|k: int| pos <= k < sorted@.len() ==> name_before(x.name@, #[trigger] sorted@[k].name@),
            ensures
                pos == 0 || !name_before(x.name@, sorted@[pos - 1].name@),
            decreases pos,
        {
            if pos == 0 {
                break;
            }
            if !is_name_before(x.name.as_str(), sorted[pos - 1].name.as_str()) {
                break;
            }
            pos -= 1;
        }
        let ghost old_sorted = sorted@;
        let ghost xn = x.name@;
        proof {
            assert forall|k: int| pos <= k < old_sorted.len() implies old_sorted[k].name@ != xn by {
                lemma_before_irreflexive(xn);
            }
            assert forall|name: Seq<char>| #[trigger] with_name(old_sorted.insert(pos as int, x), name) == with_name(
                orig.subrange(0, n + 1),
                name,
            ) by {
                lemma_insert_with_name(old_sorted, pos as int, x, name);
                assert(orig.subrange(0, n + 1) =~= orig.subrange(0, n).push(x));
                orig.subrange(0, n).lemma_filter_push(x, named(name));
            }
            assert(orig.subrange(0, n + 1) =~= orig.subrange(0, n).push(x));
            to_multiset_insert(old_sorted, pos as int, x);
            orig.subrange(0, n).to_multiset_ensures();
            let ns = old_sorted.insert(pos as int, x);
            assert forall|i: int, j: int| 0 <= i < j < ns.len() implies !name_before(
                #[trigger] ns[j].name@,
                #[trigger] ns[i].name@,
            ) by {
                if j < pos {
                    assert(ns[i] == old_sorted[i] && ns[j] == old_sorted[j]);
                } else if j == pos {
                    assert(ns[i] == old_sorted[i]);
                    let p = old_sorted[pos - 1].name@;
                    if name_before(xn, ns[i].name@) {
                        if i < pos - 1 {
                            assert(!name_before(p, old_sorted[i].name@));
                        }
                        if p != xn {
                            lemma_before_total(p, xn);
                            lemma_before_transitive(p, xn, ns[i].name@);
                        }
                    }
                } else if i > pos {
                    assert(ns[i] == old_sorted[i - 1] && ns[j] == old_sorted[j - 1]);
                } else if i == pos {
                    assert(ns[j] == old_sorted[j - 1]);
                    if name_before(ns[j].name@, xn) {
                        lemma_before_transitive(ns[j].name@, xn, ns[j].name@);
                        lemma_before_irreflexive(ns[j].name@);
                    }
                } else {
                    assert(ns[i] == old_sorted[i] && ns[j] == old_sorted[j - 1]);
                }
            }
        }
        sorted.insert(pos, x);
        assert(rest@ =~= orig.subrange(n + 1, orig.len() as int));
    }
    assert(orig.subrange(0, orig.len() as int) =~= orig);
    sorted
}

} // verus!
